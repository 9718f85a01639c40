use vstd::prelude::*;

verus! {

/// The kind of media a codec context carries.
#[derive(Debug, Clone, Copy, PartialEq, Eq, Structural)]
pub enum Type {
    Unknown,
    Video,
    Audio,
    Data,
    Subtitle,
    Attachment,
}

} // verus!
