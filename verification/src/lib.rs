//! A small web service: users with their posts, error replies, a websocket
//! echo, and the routing decisions of its attribute macros.

pub mod text;
pub mod reply;
pub mod errors;
pub mod entity;
pub mod user_posts;
pub mod routes;
pub mod websocket;
pub mod route_macros;
