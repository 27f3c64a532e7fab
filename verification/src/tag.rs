//! Handle and enumeration types of the taglib C interface used for writing
//! audio file tags. The handle types are only ever used behind pointers that
//! taglib hands out; they hold an [`Opaque`] value, which cannot be made
//! outside this crate, so that no handle is ever built in Rust.
use vstd::prelude::*;

verus! {

/// The contents of a taglib handle, which only taglib knows.
pub struct Opaque {
    _private: (),
}

/// An ID3v2 attached picture frame (opaque C type).
pub enum AttachedPictureFrame {
    Handle(Opaque),
}

/// An audio file (opaque C type).
pub enum File {
    Handle(Opaque),
}

/// An ID3v2 frame (opaque C type).
pub enum Frame {
    Handle(Opaque),
}

/// The ID3v2 frame factory (opaque C type).
pub enum FrameFactory {
    Handle(Opaque),
}

/// A tag of an audio file (opaque C type).
pub enum Tag {
    Handle(Opaque),
}

/// An ID3v2 text identification frame (opaque C type).
pub enum TextIdentificationFrame {
    Handle(Opaque),
}

/// What an attached picture shows.
pub enum PictureType {
    Other,
    FileIcon,
    OtherFileIcon,
    FrontCover,
}

/// The text encoding of a frame.
pub enum StringType {
    Latin1,
    UTF16,
    UTF16BE,
    UTF8,
    UTF16LE,
}

} // verus!
