//! Binary data views for MessagePack payloads, and the manifest formats that
//! travel in them.
//!
//! The centre of the crate is [`msgpack::data_view::DataView`]: a cursor over an
//! owned byte buffer that reads and writes fixed-width numbers in big-endian
//! order and raw byte runs, checks every access against its declared length and
//! keeps count of its position.
pub mod manifest;
pub mod msgpack;
