use termchat::config::Config;
use termchat::rest::{
    channel_messages_path, dm_history_path, interpret_response, join_channel_path, member_path,
    members_path, ApiError, ApiResponse, RestClient,
};
use termchat::text::{eq_ignore_ascii_case, is_blank, replace_all, str_less, trim_string};

#[test]
fn ws_url_rewrites_scheme() {
    let https = Config::from_environment(None, None);
    assert_eq!(https.server_url, "https://termchat-server-09qq.onrender.com");
    assert_eq!(https.ws_url(), "wss://termchat-server-09qq.onrender.com/ws");
    let http = Config::from_environment(Some("http://localhost:8080".to_string()), None);
    assert_eq!(http.ws_url(), "ws://localhost:8080/ws");
    let other = Config::from_environment(Some("ftp://x".to_string()), None);
    assert_eq!(other.ws_url(), "ftp://x/ws");
}

#[test]
fn token_path_joins_components() {
    let c = Config::from_environment(None, Some("/home/u/.config".to_string()));
    assert_eq!(c.token_path, "/home/u/.config/termchat/token");
    let c = Config::from_environment(None, Some("/cfg/".to_string()));
    assert_eq!(c.token_path, "/cfg/termchat/token");
    let c = Config::from_environment(None, None);
    assert_eq!(c.token_path, "./termchat/token");
}

#[test]
fn saved_token_is_trimmed() {
    assert_eq!(Config::token_from_contents(Some("  abc.def \n".to_string())).as_deref(), Some("abc.def"));
    assert_eq!(Config::token_from_contents(Some(" \t\n".to_string())), None);
    assert_eq!(Config::token_from_contents(None), None);
}

#[test]
fn trimming_and_case() {
    assert_eq!(trim_string("\u{3000} a b \u{2028}"), "a b");
    assert_eq!(trim_string(""), "");
    assert!(is_blank(" \t "));
    assert!(!is_blank(" x "));
    assert!(eq_ignore_ascii_case("BoB", "bob"));
    assert!(!eq_ignore_ascii_case("bob", "bo"));
    assert!(!eq_ignore_ascii_case("É", "é"));
}

#[test]
fn replacing_and_ordering() {
    assert_eq!(replace_all("aaa", "aa", "b"), "ba");
    assert_eq!(replace_all("http://http://", "http://", "ws://"), "ws://ws://");
    assert!(str_less("abc", "abd"));
    assert!(str_less("ab", "abc"));
    assert!(!str_less("abc", "abc"));
    assert!(!str_less("b", "abc"));
    assert!(str_less("Z", "a"));
}

#[test]
fn request_paths() {
    assert_eq!(join_channel_path(12), "/api/channels/12/join");
    assert_eq!(members_path(0), "/api/channels/0/members");
    assert_eq!(member_path(3, -45), "/api/channels/3/members/-45");
    assert_eq!(channel_messages_path(5, None), "/api/channels/5/messages");
    assert_eq!(
        channel_messages_path(5, Some(i64::MIN)),
        "/api/channels/5/messages?before=-9223372036854775808&limit=50"
    );
    assert_eq!(dm_history_path(7, Some(100)), "/api/dm/7?before=100&limit=50");
}

#[test]
fn client_header_and_url() {
    let mut c = RestClient::new("http://h".to_string());
    assert_eq!(c.auth_header(), "Bearer ");
    c.set_token("tok".to_string());
    assert_eq!(c.auth_header(), "Bearer tok");
    assert_eq!(c.url("/api/me"), "http://h/api/me");
}

#[test]
fn response_interpretation() {
    let ok: ApiResponse<i64> = ApiResponse { data: Some(3), error: None };
    assert_eq!(interpret_response(ok), Ok(3));
    let err: ApiResponse<i64> = ApiResponse {
        data: Some(3),
        error: Some(ApiError { code: "not_found".to_string(), message: "gone".to_string() }),
    };
    assert_eq!(interpret_response(err), Err("not_found: gone".to_string()));
    let empty: ApiResponse<i64> = ApiResponse { data: None, error: None };
    assert_eq!(interpret_response(empty), Err("empty response".to_string()));
}
