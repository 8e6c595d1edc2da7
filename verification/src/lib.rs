//! Client-side logic of a terminal chat application: conversation state,
//! key handling, the decisions taken around network round trips, and the
//! text shown on screen.

pub mod text;
pub mod models;
pub mod state;
pub mod events;
pub mod config;
pub mod rest;
pub mod order;
pub mod app;
pub mod view;
pub mod laws;
