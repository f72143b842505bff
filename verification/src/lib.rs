//! A push-driven encoder for a MessagePack-style, tag-prefixed binary wire
//! format. The caller walks its data and invokes one method per value kind;
//! the encoder decides exactly which bytes reach the sink and how containers
//! whose element count is not known up front are framed (buffer-and-replay).

pub mod deserializer;
pub mod serializer;
pub mod wire;
