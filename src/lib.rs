//! Core of a small development HTTP server: it takes the first line of a
//! request, picks one of a fixed set of routes, names the file to read, and
//! frames the response. Reading sockets and files is left to the caller,
//! which drives [`begin`] and [`after_read`] until it gets a response to send.
//! [`FrameClock`] paces the browser animation that the server delivers.
pub mod bytes;
pub mod exchange;
pub mod frames;
pub mod request;
pub mod response;

pub use exchange::{after_read, begin, reply_to, Action};
pub use frames::{FrameClock, Tick, DEFAULT_MAX_FRAMES};
pub use request::{classify, is_contained, request_line, resolve, RouteKind};
pub use response::{ContentType, Response, Status};
