//! A reader for the OpenStreetMap PBF file format.
//!
//! A PBF file is a sequence of length-prefixed, optionally zlib-compressed
//! blobs, each holding a wire-format encoded block of map data. This crate
//! decodes the outer blob framing with strict size bounds, decodes blobs to
//! header or primitive blocks, and reconstructs nodes, ways and relations
//! from a decoded block, reversing the delta coding of ids, coordinates and
//! references and resolving strings through the block's shared string table.

use vstd::prelude::*;

pub mod blob;
pub mod block;
pub mod dense;
pub mod elements;
pub mod error;
pub mod messages;
pub mod wire;

pub use blob::{
    Blob, BlobData, BlobDecode, BlobHeader, BlobReader, BlobType, SeekFrom, MAX_BLOB_HEADER_SIZE,
    MAX_BLOB_MESSAGE_SIZE,
};
pub use block::{
    str_from_stringtable, BlockElementsIter, GroupIter, GroupNodeIter, GroupRelationIter,
    GroupWayIter, HeaderBlock, PrimitiveBlock, PrimitiveGroup,
};
pub use dense::{DenseNode, DenseNodeIter, DenseTagIter};
pub use elements::{
    Element, Info, Node, RawTagIter, RelMember, RelMemberIter, RelMemberType, Relation, TagIter,
    Way, WayRefIter,
};
pub use error::{BlobError, Error, ErrorKind, Result};

verus! {

/// The offset of a blob in bytes from stream start.
#[derive(Clone, Copy, Debug, PartialEq, Eq, Structural)]
pub struct ByteOffset(pub u64);

} // verus!
