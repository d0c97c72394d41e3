//! Authenticated-session logic for a server-rendered web application:
//! validated credentials, password hashing, a session store with its guard,
//! one-shot flash notices, safe post-login redirects, and the decisions of the
//! register / login / logout handlers.

pub mod text;
pub mod domain;
pub mod hasher;
pub mod redirect;
pub mod flash;
pub mod session;
pub mod auth;
pub mod startup;
