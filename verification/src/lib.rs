//! Client-side core for the Untis JSON-RPC API.
//!
//! The crate sends nothing over the network. A [`Client`] hands out the
//! calls that a transport has to post, and [`jsonrpc::receive`] says what
//! the response to a call comes to. The compact integer dates and times of
//! the API are handled in [`datetime`].
//!
//! ```text
//! let mut client = untis::Client::new("server.webuntis.com", "school");
//! let call = client.login("username", "password");
//! // post `call` to `client.url()`, then:
//! let session = client.finish_login(exchange)?;
//! let call = client.rooms()?;
//! ```

pub mod calendar;
pub mod client;
pub mod date;
pub mod datetime;
pub mod error;
pub mod jsonrpc;
pub mod params;
pub mod request;
pub mod resources;
pub mod response;
pub mod school_search;
pub mod schools;
pub mod session;
pub mod text;
pub mod time;
pub mod untis;

pub use client::Client;
pub use datetime::{Date, DecodeError, Time};
pub use error::Error;
pub use resources::{
    Class, Department, DidItem, ElementType, Holiday, IdItem, Lesson, LessonCode, LessonType, Room,
    School, SchoolSearchResult, Schoolyear, Session, StatusData, StatusDataItem, Student, Subject,
    Teacher,
};
