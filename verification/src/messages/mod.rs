//! The binary codec: message header, OPEN, UPDATE and prefix tuples.
use vstd::prelude::*;

pub mod error;
pub mod header;
pub mod message;
pub mod open;
pub mod route;
pub mod update;
pub mod wire;

pub use error::Error;
pub use error::ErrorKind;
pub use header::Header;
pub use header::MessageType;
pub use message::Message;
pub use open::Open;
pub use route::Route;
pub use update::PathAttributes;
pub use update::Update;

verus! {

/// An autonomous system number.
pub type ASN = u16;

} // verus!
