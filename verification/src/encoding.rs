//! How messages are encoded on the wire.

use vstd::prelude::*;

verus! {

/// The name of an encoding.
#[derive(Clone, Copy, PartialEq, Eq, Debug, Structural)]
#[non_exhaustive]
pub enum Name {
    /// Protocol Buffers.
    Protobuf,
}

/// An error of encoding or decoding, with what went wrong in words.
#[derive(Debug)]
pub struct EncodingError {
    pub message: String,
}

impl EncodingError {
    /// An error that carries the text `err`.
    pub fn new(err: &str) -> (r: EncodingError)
        ensures
            r.message@ == err@,
    {
        EncodingError { message: err.to_owned() }
    }
}

/// The encoder of an encoding.
#[derive(Clone, Copy, PartialEq, Eq, Debug, Default, Structural)]
pub struct Encoder {}

/// The decoder of an encoding.
#[derive(Clone, Copy, PartialEq, Eq, Debug, Default, Structural)]
pub struct Decoder {}

/// An encoding: its encoder and its decoder.
#[derive(Clone, Copy, PartialEq, Eq, Debug, Structural)]
pub struct Encoding {
    pub encoder: Encoder,
    pub decoder: Decoder,
}

impl Encoding {
    /// The name of this encoding.
    pub fn name(&self) -> (r: Name)
        ensures
            r == Name::Protobuf,
    {
        Name::Protobuf
    }
}

/// The builder of an encoding.
#[derive(Clone, Copy, PartialEq, Eq, Debug, Default, Structural)]
pub struct EncodingBuilder {}

impl EncodingBuilder {
    /// A builder of the default encoding.
    pub fn new() -> (r: EncodingBuilder)
        ensures
            r == (EncodingBuilder {  }),
    {
        EncodingBuilder {  }
    }

    /// The encoding built: Protocol Buffers.
    pub fn build(self) -> (r: Encoding)
        ensures
            r.name_spec() == Name::Protobuf,
    {
        Encoding { encoder: Encoder {  }, decoder: Decoder {  } }
    }
}

impl Encoding {
    /// The name of this encoding.
    pub open spec fn name_spec(&self) -> Name {
        Name::Protobuf
    }
}

} // verus!
