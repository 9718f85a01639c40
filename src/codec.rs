use vstd::prelude::*;

use crate::media;
use crate::native::Native;

verus! {

/// A codec identifier, as the native layer records it (zero: no codec).
#[derive(Debug, Clone, Copy, PartialEq, Eq, Structural)]
pub struct Id(pub u32);

impl Id {
    pub open spec fn spec_is_none(self) -> bool {
        self.0 == 0
    }

    /// Whether this is the "no codec" identifier.
    #[verifier::when_used_as_spec(spec_is_none)]
    pub fn is_none(self) -> (r: bool)
        ensures
            r == self.spec_is_none(),
    {
        self.0 == 0
    }
}

/// Whether a codec implementation decodes or encodes.
#[derive(Debug, Clone, Copy, PartialEq, Eq, Structural)]
pub enum Kind {
    Decoder,
    Encoder,
}

/// A handle to a codec implementation: its position in the native registry.
#[derive(Debug, Clone, Copy, PartialEq, Eq, Structural)]
pub struct Codec {
    pub ptr: usize,
}

/// What the native registry knows of one codec implementation.
pub struct Descriptor {
    pub id: Id,
    pub kind: Kind,
    pub medium: media::Type,
    /// What the codec's initialisation returns when a context is opened with
    /// it: zero or more for success, a negative error code for failure.
    pub init_result: i32,
    /// Names of the options that the codec consumes when it is opened.
    pub options: Vec<String>,
}

impl Codec {
    /// Whether this is a registered codec of the given kind.
    pub open spec fn spec_is_kind(self, native: &Native, kind: Kind) -> bool {
        native@.has_codec(self) && native@.descriptor(self).kind == kind
    }

    /// Whether this is a registered decoder.
    pub fn is_decoder(&self, native: &Native) -> (r: bool)
        ensures
            r == self.spec_is_kind(native, Kind::Decoder),
    {
        self.ptr < native.codec_count() && native.descriptor(*self).kind == Kind::Decoder
    }

    /// Whether this is a registered encoder.
    pub fn is_encoder(&self, native: &Native) -> (r: bool)
        ensures
            r == self.spec_is_kind(native, Kind::Encoder),
    {
        self.ptr < native.codec_count() && native.descriptor(*self).kind == Kind::Encoder
    }
}

impl Descriptor {
    /// The option names, as character sequences.
    pub open spec fn names(&self) -> Seq<Seq<char>> {
        self.options@.map_values(|s: String| s@)
    }
}

} // verus!
