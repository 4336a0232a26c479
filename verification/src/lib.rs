//! Client-side data model and framing logic for a line-delimited JSON control
//! protocol spoken by a media player over a local stream socket.
//!
//! The crate covers the protocol itself: rendering typed commands into wire
//! lists, wrapping them in request envelopes, serializing and decoding the
//! envelopes through `rustc_serialize`, and the line-buffering loop that turns
//! a raw byte stream into decoded responses. The socket itself is owned by the
//! caller, which writes the request lines and hands every chunk it reads to
//! [`reader::ResponseReader`].

pub mod models;
pub mod reader;
pub mod wire;

pub use models::Command;
pub use models::LoadMode;
pub use models::MpvError;
pub use models::Payload;
pub use models::PayloadKind;
pub use models::Request;
pub use models::SeekMode;
pub use models::WireValue;
pub use reader::ResponseReader;
pub use wire::Response;
pub use wire::check_size;
pub use wire::encode_request;
pub use wire::flag_data;
pub use wire::number_data;
