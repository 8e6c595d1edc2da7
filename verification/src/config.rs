//! Where the client connects and where it keeps its login token.
use vstd::prelude::*;

use crate::text::replace_all;
use crate::text::replace_seq;
use crate::text::string_from_chars;
use crate::text::chars_of;
use crate::text::string_of;
use crate::text::trim_range;
use crate::text::trim_seq;

verus! {

/// The server used when none is configured.
pub open spec fn default_server() -> Seq<char> {
    "https://termchat-server-09qq.onrender.com"@
}

/// `base` joined with the relative component `comp`, with a `/` between
/// them unless `base` is empty or already ends with one. Paths are kept as
/// text with `/` as the separator, as on Unix; Windows accepts it too.
pub open spec fn join_path(base: Seq<char>, comp: Seq<char>) -> Seq<char> {
    if base.len() == 0 {
        comp
    } else if base.last() == '/' {
        base + comp
    } else {
        base + seq!['/'] + comp
    }
}

/// The WebSocket address for a server address: `https://` becomes `wss://`,
/// then `http://` becomes `ws://`, and `/ws` is appended.
pub open spec fn ws_url_of(server: Seq<char>) -> Seq<char> {
    replace_seq(replace_seq(server, "https://"@, "wss://"@), "http://"@, "ws://"@) + "/ws"@
}

pub struct Config {
    pub server_url: String,
    pub token_path: String,
}

fn join_path_exec(base: String, comp: &str) -> (r: String)
    ensures
        r@ == join_path(base@, comp@),
{
    let mut r = base;
    if r.as_str().is_empty() {
        return string_of(comp);
    }
    let v = chars_of(r.as_str());
    if v[v.len() - 1] != '/' {
        crate::text::push_char(&mut r, '/');
    }
    r.append(comp);
    r
}

impl Config {
    /// The configuration given the value of `TERMCHAT_SERVER` (if set) and
    /// the user's configuration directory (if known): the server defaults to
    /// the public one, and the token lives at `<dir>/termchat/token`, with
    /// `.` standing for an unknown directory.
    pub fn from_environment(server_override: Option<String>, config_dir: Option<String>) -> (c:
        Config)
        ensures
            c.server_url@ == match server_override {
                Some(s) => s@,
                None => default_server(),
            },
            c.token_path@ == join_path(
                join_path(
                    match config_dir {
                        Some(d) => d@,
                        None => "."@,
                    },
                    "termchat"@,
                ),
                "token"@,
            ),
    {
        let server_url = match server_override {
            Some(s) => s,
            None => string_of("https://termchat-server-09qq.onrender.com"),
        };
        let dir = match config_dir {
            Some(d) => d,
            None => string_of("."),
        };
        let token_path = join_path_exec(join_path_exec(dir, "termchat"), "token");
        Config { server_url, token_path }
    }

    /// The WebSocket address of the server.
    pub fn ws_url(&self) -> (r: String)
        ensures
            r@ == ws_url_of(self.server_url@),
    {
        proof {
            reveal_strlit("https://");
            reveal_strlit("http://");
        }
        let a = replace_all(self.server_url.as_str(), "https://", "wss://");
        let b = replace_all(a.as_str(), "http://", "ws://");
        b.concat("/ws")
    }

    /// The saved token, given what the token file holds (`None` when it
    /// could not be read): the contents trimmed, unless that leaves nothing.
    pub fn token_from_contents(contents: Option<String>) -> (r: Option<String>)
        ensures
            match contents {
                Some(s) => if trim_seq(s@).len() == 0 {
                    r is None
                } else {
                    r matches Some(t) && t@ == trim_seq(s@)
                },
                None => r is None,
            },
    {
        match contents {
            Some(s) => {
                let v = chars_of(s.as_str());
                let (a, b) = trim_range(&v);
                if a == b {
                    None
                } else {
                    Some(string_from_chars(&v, a, b))
                }
            },
            None => None,
        }
    }
}

} // verus!
