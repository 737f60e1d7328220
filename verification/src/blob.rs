//! Read and decode blobs

use vstd::prelude::*;

use crate::block::{HeaderBlock, PrimitiveBlock};
use crate::error::{new_blob_error, new_error, new_protobuf_error, BlobError, ErrorKind, Result, WireError};
use crate::messages::{
    parse_blob_data, parse_blob_header, parse_header_block, parse_primitive_block, spec_blob_data,
    spec_blob_header, spec_header_block, spec_primitive_block, SpecBlobData, SpecBlobHeader,
};
use crate::wire::{read_be_u32, spec_be_u32, spec_i32_as_u64};
use crate::ByteOffset;

verus! {

/// Maximum allowed `BlobHeader` size in bytes.
pub const MAX_BLOB_HEADER_SIZE: u64 = 64 * 1024;

/// Maximum allowed uncompressed `Blob` content size in bytes.
pub const MAX_BLOB_MESSAGE_SIZE: u64 = 32 * 1024 * 1024;

/// The decoded header message of one blob: the type tag of the content and
/// the declared byte length of the payload message that follows.
#[derive(Clone, Debug)]
pub struct BlobHeader {
    /// The type tag, such as `"OSMHeader"` or `"OSMData"`.
    pub blob_type: String,
    /// The declared length of the payload message in bytes.
    pub datasize: i32,
}

/// The decoded payload message of one blob: its content, held either as raw
/// bytes or as a zlib-compressed byte run.
#[derive(Clone, Debug)]
pub struct BlobData {
    /// The content as raw bytes, if stored uncompressed.
    pub raw: Option<Vec<u8>>,
    /// The content as a zlib stream, if stored compressed.
    pub zlib_data: Option<Vec<u8>>,
}

/// The content type of a blob.
#[derive(Clone, Debug, Eq, PartialEq)]
pub enum BlobType<'a> {
    /// Blob contains a `HeaderBlock`.
    OsmHeader,
    /// Blob contains a `PrimitiveBlock`.
    OsmData,
    /// An unknown blob type with the given string identifier.
    /// Parsers should ignore unknown blobs they do not expect.
    Unknown(&'a str),
}

/// The decoded content of a blob (analogous to `BlobType`).
#[derive(Clone, Debug)]
pub enum BlobDecode<'a> {
    /// Blob contains a `HeaderBlock`.
    OsmHeader(Box<HeaderBlock>),
    /// Blob contains a `PrimitiveBlock`.
    OsmData(PrimitiveBlock),
    /// An unknown blob type with the given string identifier.
    /// Parsers should ignore unknown blobs they do not expect.
    Unknown(&'a str),
}

/// The spec form of a blob.
#[verifier::ext_equal]
pub struct SpecBlob {
    pub header: SpecBlobHeader,
    pub data: SpecBlobData,
    pub offset: Option<ByteOffset>,
}

/// A blob.
///
/// A PBF file consists of a sequence of blobs. This type supports decoding
/// the content of a blob to different types of blocks that are usually more
/// interesting to the user.
#[derive(Clone, Debug)]
pub struct Blob {
    header: BlobHeader,
    blob: BlobData,
    offset: Option<ByteOffset>,
}

impl View for Blob {
    type V = SpecBlob;

    closed spec fn view(&self) -> SpecBlob {
        SpecBlob { header: self.header@, data: self.blob@, offset: self.offset }
    }
}

/// The full inflation of a complete, valid zlib stream, or nothing when the
/// bytes are not one.
pub uninterp spec fn spec_inflate(s: Seq<u8>) -> Option<Seq<u8>>;

/// Relies on flate2's `ZlibDecoder`, whose reads yield the inflated bytes of
/// the zlib stream, composed with std's `Read::take`, which stops the reads
/// after `cap` bytes. A valid stream inflates without a read error; of an
/// invalid one nothing more is assumed, as the reads may fail or end early.
#[verifier::external_body]
fn inflate_capped(z: &Vec<u8>, cap: u64) -> (r: Option<Vec<u8>>)
    ensures
        r matches Some(v) ==> v@.len() <= cap,
        spec_inflate(z@) is Some ==> r is Some,
        r matches Some(v) ==> (spec_inflate(z@) matches Some(full) ==> v@ == full.take(
            if full.len() <= cap {
                full.len() as int
            } else {
                cap as int
            },
        )),
{
    let mut out: Vec<u8> = Vec::new();
    let dec = flate2::read::ZlibDecoder::new(z.as_slice());
    let mut lim = std::io::Read::take(dec, cap);
    match std::io::Read::read_to_end(&mut lim, &mut out) {
        Ok(_) => Some(out),
        Err(_) => None,
    }
}

/// Whether `v` could be the payload bytes of a blob body: the raw bytes when
/// they are stored uncompressed and under the size bound, or a run of at
/// most the size bound that agrees with the inflation of the zlib stream
/// wherever that inflation is determined.
pub open spec fn spec_payload_of(d: SpecBlobData, v: Seq<u8>) -> bool {
    match d.raw {
        Some(raw) => raw.len() < MAX_BLOB_MESSAGE_SIZE && v == raw,
        None => match d.zlib_data {
            Some(z) => v.len() <= MAX_BLOB_MESSAGE_SIZE && (spec_inflate(z) matches Some(full)
                ==> v == full.take(
                if full.len() <= MAX_BLOB_MESSAGE_SIZE {
                    full.len() as int
                } else {
                    MAX_BLOB_MESSAGE_SIZE as int
                },
            )),
            None => false,
        },
    }
}

/// The payload bytes of a blob body, where they are fully determined.
pub open spec fn spec_payload(d: SpecBlobData) -> Option<Seq<u8>> {
    match d.raw {
        Some(raw) => if raw.len() < MAX_BLOB_MESSAGE_SIZE {
            Some(raw)
        } else {
            None
        },
        None => match d.zlib_data {
            Some(z) => match spec_inflate(z) {
                Some(full) => Some(
                    full.take(
                        if full.len() <= MAX_BLOB_MESSAGE_SIZE {
                            full.len() as int
                        } else {
                            MAX_BLOB_MESSAGE_SIZE as int
                        },
                    ),
                ),
                None => None,
            },
            None => None,
        },
    }
}

/// Extracts the payload bytes of a blob body: raw bytes are returned as they
/// are, under the size bound; zlib bytes are inflated, with the inflated
/// output hard-capped at the size bound to stop decompression bombs.
pub(crate) fn decode_blob(blob: &BlobData) -> (r: Result<Vec<u8>>)
    ensures
        spec_payload(blob@) matches Some(v) ==> r matches Ok(out) && out@ == v,
        match r {
            Ok(out) => spec_payload_of(blob@, out@),
            Err(e) => match blob@.raw {
                Some(raw) => raw.len() >= MAX_BLOB_MESSAGE_SIZE && e@ == ErrorKind::Blob(
                    BlobError::MessageTooBig { size: raw.len() as u64 },
                ),
                None => match blob@.zlib_data {
                    Some(z) => spec_inflate(z) is None && e@ == (ErrorKind::Protobuf {
                        err: WireError::Zlib,
                        location: "blob zlib data",
                    }),
                    None => e@ == ErrorKind::Blob(BlobError::Empty),
                },
            },
        },
{
    match &blob.raw {
        Some(raw) => {
            let size = raw.len() as u64;
            if size < MAX_BLOB_MESSAGE_SIZE {
                Ok(crate::wire::clone_bytes(raw))
            } else {
                Err(new_blob_error(BlobError::MessageTooBig { size }))
            }
        },
        None => match &blob.zlib_data {
            Some(z) => match inflate_capped(z, MAX_BLOB_MESSAGE_SIZE) {
                Some(out) => Ok(out),
                None => Err(new_protobuf_error(WireError::Zlib, "blob zlib data")),
            },
            None => Err(new_blob_error(BlobError::Empty)),
        },
    }
}

impl Blob {
    pub(crate) fn new(header: BlobHeader, blob: BlobData, offset: Option<ByteOffset>) -> (r: Blob)
        ensures
            r@ == (SpecBlob { header: header@, data: blob@, offset }),
    {
        Blob { header, blob, offset }
    }

    /// Returns the type of a blob without decoding its content.
    pub fn get_type<'a>(&'a self) -> (r: BlobType<'a>)
        ensures
            self@.header.blob_type == "OSMHeader"@ ==> r == BlobType::OsmHeader,
            self@.header.blob_type != "OSMHeader"@ && self@.header.blob_type == "OSMData"@ ==> r
                == BlobType::OsmData,
            self@.header.blob_type != "OSMHeader"@ && self@.header.blob_type != "OSMData"@ ==> (
            r matches BlobType::Unknown(t) && t@ == self@.header.blob_type),
    {
        if self.header.blob_type == "OSMHeader".to_owned() {
            BlobType::OsmHeader
        } else if self.header.blob_type == "OSMData".to_owned() {
            BlobType::OsmData
        } else {
            BlobType::Unknown(self.header.blob_type.as_str())
        }
    }

    /// Returns the byte offset of the blob from the start of its source
    /// stream. This might be `None` if the source stream was not seekable.
    pub fn offset(&self) -> (r: Option<ByteOffset>)
        ensures
            r == self@.offset,
    {
        self.offset
    }

    /// Tries to decode the blob to a `HeaderBlock`. This operation might
    /// involve an expensive decompression step.
    pub fn to_headerblock(&self) -> (r: Result<HeaderBlock>)
        ensures
            spec_payload(self@.data) matches Some(v) ==> (match spec_header_block(v) {
                Some(h) => r matches Ok(out) && out@ == h,
                None => r matches Err(e) && e@ matches ErrorKind::Protobuf { location, .. }
                    && location@ == "decompressed block"@,
            }),
            r matches Ok(out) ==> exists|v: Seq<u8>|
                #[trigger] spec_payload_of(self@.data, v) && spec_header_block(v) == Some(out@),
            self@.data.raw matches Some(raw) ==> (raw.len() >= MAX_BLOB_MESSAGE_SIZE ==> (
            r matches Err(e) && e@ == ErrorKind::Blob(
                BlobError::MessageTooBig { size: raw.len() as u64 },
            ))),
            self@.data.raw is None && self@.data.zlib_data is None ==> (r matches Err(e) && e@
                == ErrorKind::Blob(BlobError::Empty)),
    {
        let bytes = match decode_blob(&self.blob) {
            Ok(b) => b,
            Err(e) => {
                return Err(e);
            },
        };
        match parse_header_block(&bytes) {
            Ok(h) => Ok(h),
            Err(e) => Err(new_protobuf_error(e, "decompressed block")),
        }
    }

    /// Tries to decode the blob to a `PrimitiveBlock`. This operation might
    /// involve an expensive decompression step.
    pub fn to_primitiveblock(&self) -> (r: Result<PrimitiveBlock>)
        ensures
            spec_payload(self@.data) matches Some(v) ==> (match spec_primitive_block(v) {
                Some(b) => r matches Ok(out) && out@ == b,
                None => r matches Err(e) && e@ matches ErrorKind::Protobuf { location, .. }
                    && location@ == "decompressed block"@,
            }),
            r matches Ok(out) ==> exists|v: Seq<u8>|
                #[trigger] spec_payload_of(self@.data, v) && spec_primitive_block(v) == Some(out@),
            self@.data.raw matches Some(raw) ==> (raw.len() >= MAX_BLOB_MESSAGE_SIZE ==> (
            r matches Err(e) && e@ == ErrorKind::Blob(
                BlobError::MessageTooBig { size: raw.len() as u64 },
            ))),
            self@.data.raw is None && self@.data.zlib_data is None ==> (r matches Err(e) && e@
                == ErrorKind::Blob(BlobError::Empty)),
    {
        let bytes = match decode_blob(&self.blob) {
            Ok(b) => b,
            Err(e) => {
                return Err(e);
            },
        };
        match parse_primitive_block(&bytes) {
            Ok(b) => Ok(b),
            Err(e) => Err(new_protobuf_error(e, "decompressed block")),
        }
    }

    /// Decodes the Blob and tries to obtain the inner content (usually a
    /// `HeaderBlock` or a `PrimitiveBlock`). This operation might involve an
    /// expensive decompression step.
    pub fn decode<'a>(&'a self) -> (r: Result<BlobDecode<'a>>)
        ensures
            self@.header.blob_type != "OSMHeader"@ && self@.header.blob_type != "OSMData"@ ==> (
            r matches Ok(bd) && bd matches BlobDecode::Unknown(t) && t@ == self@.header.blob_type),
            r matches Ok(bd) ==> (bd matches BlobDecode::OsmHeader(h) ==> self@.header.blob_type
                == "OSMHeader"@ && exists|v: Seq<u8>|
                #[trigger] spec_payload_of(self@.data, v) && spec_header_block(v) == Some(h@)),
            r matches Ok(bd) ==> (bd matches BlobDecode::OsmData(b) ==> self@.header.blob_type
                != "OSMHeader"@ && self@.header.blob_type == "OSMData"@ && exists|v: Seq<u8>|
                #[trigger] spec_payload_of(self@.data, v) && spec_primitive_block(v) == Some(b@)),
            self@.header.blob_type == "OSMHeader"@ ==> (spec_payload(self@.data) matches Some(v)
                ==> (spec_header_block(v) matches Some(h) ==> (r matches Ok(bd) && bd matches
            BlobDecode::OsmHeader(out) && out@ == h))),
            self@.header.blob_type != "OSMHeader"@ && self@.header.blob_type == "OSMData"@ ==> (
            spec_payload(self@.data) matches Some(v) ==> (spec_primitive_block(v) matches Some(b)
                ==> (r matches Ok(bd) && bd matches BlobDecode::OsmData(out) && out@ == b))),
    {
        match self.get_type() {
            BlobType::OsmHeader => {
                let block = match self.to_headerblock() {
                    Ok(block) => Box::new(block),
                    Err(e) => {
                        return Err(e);
                    },
                };
                Ok(BlobDecode::OsmHeader(block))
            },
            BlobType::OsmData => {
                let block = match self.to_primitiveblock() {
                    Ok(block) => block,
                    Err(e) => {
                        return Err(e);
                    },
                };
                Ok(BlobDecode::OsmData(block))
            },
            BlobType::Unknown(x) => Ok(BlobDecode::Unknown(x)),
        }
    }
}


/// The spec form of a blob reader: the bytes of the source, the read
/// position, the tracked offset, and whether the stream is still live.
#[verifier::ext_equal]
pub struct SpecReader {
    pub data: Seq<u8>,
    pub pos: int,
    pub offset: Option<ByteOffset>,
    pub ok: bool,
}

/// The abstract outcome of one framing failure.
pub enum SpecFail {
    /// Too few bytes remained for the four-byte length field.
    InvalidHeaderSize,
    /// The header length field was at or over the bound.
    HeaderTooBig(u64),
    /// The header message did not decode.
    HeaderDecode,
    /// The payload message did not decode.
    ContentDecode,
}

/// The abstract outcome of one pull from a reader.
pub enum SpecNext {
    /// The sequence ended, cleanly or because it had already halted.
    End,
    /// One framed blob.
    Item(SpecBlob),
    /// A framing failure; the reader halts.
    Fail(SpecFail),
}

/// One step of the framing protocol: reads the four-byte big-endian header
/// length, bounds it, decodes the header message, reads the declared number
/// of payload bytes and decodes them, tracking offsets by the declared
/// sizes. A halted reader steps to nothing; a clean end of data ends the
/// sequence; any failure halts the reader.
pub open spec fn spec_reader_next(r: SpecReader) -> (SpecReader, SpecNext) {
    if !r.ok {
        (r, SpecNext::End)
    } else if r.pos >= r.data.len() {
        (SpecReader { offset: None, ..r }, SpecNext::End)
    } else if r.data.len() - r.pos < 4 {
        (SpecReader { offset: None, ok: false, ..r }, SpecNext::Fail(SpecFail::InvalidHeaderSize))
    } else {
        let prev_offset = r.offset;
        let hs = spec_be_u32(r.data.subrange(r.pos, r.pos + 4)) as u64;
        let pos1 = r.pos + 4;
        let off1 = match r.offset {
            Some(o) => Some(ByteOffset(vstd::wrapping::u64_specs::wrapping_add(o.0, 4))),
            None => None,
        };
        if hs >= MAX_BLOB_HEADER_SIZE {
            (
                SpecReader { pos: pos1, offset: off1, ok: false, ..r },
                SpecNext::Fail(SpecFail::HeaderTooBig(hs)),
            )
        } else {
            let hlen = if hs <= r.data.len() - pos1 {
                hs as int
            } else {
                r.data.len() - pos1
            };
            let pos2 = pos1 + hlen;
            match spec_blob_header(r.data.subrange(pos1, pos2)) {
                None => (
                    SpecReader { pos: pos2, offset: None, ok: false, ..r },
                    SpecNext::Fail(SpecFail::HeaderDecode),
                ),
                Some(h) => {
                    let ds = spec_i32_as_u64(h.datasize);
                    let blen = if ds <= r.data.len() - pos2 {
                        ds as int
                    } else {
                        r.data.len() - pos2
                    };
                    let pos3 = pos2 + blen;
                    match spec_blob_data(r.data.subrange(pos2, pos3)) {
                        None => (
                            SpecReader { pos: pos3, offset: None, ok: false, ..r },
                            SpecNext::Fail(SpecFail::ContentDecode),
                        ),
                        Some(d) => {
                            let off2 = match off1 {
                                Some(o) => Some(
                                    ByteOffset(
                                        vstd::wrapping::u64_specs::wrapping_add(
                                            vstd::wrapping::u64_specs::wrapping_add(o.0, hs),
                                            ds,
                                        ),
                                    ),
                                ),
                                None => None,
                            };
                            (
                                SpecReader { pos: pos3, offset: off2, ..r },
                                SpecNext::Item(SpecBlob { header: h, data: d, offset: prev_offset }),
                            )
                        },
                    }
                },
            }
        }
    }
}

/// The error kind a framing failure is reported as.
pub open spec fn spec_fail_kind(f: SpecFail, k: ErrorKind) -> bool {
    match f {
        SpecFail::InvalidHeaderSize => k == ErrorKind::Blob(BlobError::InvalidHeaderSize),
        SpecFail::HeaderTooBig(s) => k == ErrorKind::Blob(BlobError::HeaderTooBig { size: s }),
        SpecFail::HeaderDecode => k matches ErrorKind::Protobuf { location, .. } && location@
            == "blob header"@,
        SpecFail::ContentDecode => k matches ErrorKind::Protobuf { location, .. } && location@
            == "blob content"@,
    }
}

/// Where a seek lands, in bytes from the start of the data.
pub open spec fn spec_seek_target(r: SpecReader, pos: SeekFrom) -> int {
    match pos {
        SeekFrom::Start(n) => n as int,
        SeekFrom::End(d) => r.data.len() + d,
        SeekFrom::Current(d) => r.pos + d,
    }
}

/// A position to seek to, in bytes relative to the start, the end, or the
/// current position of the data.
#[derive(Clone, Copy, Debug, PartialEq, Eq, Structural)]
pub enum SeekFrom {
    /// An offset from the start of the data.
    Start(u64),
    /// An offset from the end of the data.
    End(i64),
    /// An offset from the current position.
    Current(i64),
}

/// A reader for PBF data held in memory that allows iterating over `Blob`s.
///
/// The framing protocol is read forward-only; after any framing error the
/// reader halts and yields nothing further, because byte alignment with
/// later records can no longer be trusted.
#[derive(Clone, Debug)]
pub struct BlobReader {
    data: Vec<u8>,
    pos: usize,
    /// Current reader offset in bytes from the start of the stream.
    offset: Option<ByteOffset>,
    last_blob_ok: bool,
}

impl View for BlobReader {
    type V = SpecReader;

    closed spec fn view(&self) -> SpecReader {
        SpecReader {
            data: self.data@,
            pos: self.pos as int,
            offset: self.offset,
            ok: self.last_blob_ok,
        }
    }
}

impl BlobReader {
    /// Creates a new `BlobReader` over the given bytes, without offset
    /// tracking, as for a source whose start position is unknown.
    pub fn new(data: Vec<u8>) -> (r: BlobReader)
        ensures
            r@ == (SpecReader { data: data@, pos: 0, offset: None, ok: true }),
    {
        BlobReader { data, pos: 0, offset: None, last_blob_ok: true }
    }

    /// Creates a new `BlobReader` over the given bytes that is seekable and
    /// is initialized with a valid offset.
    pub fn new_seekable(data: Vec<u8>) -> (r: Result<BlobReader>)
        ensures
            r matches Ok(br) && br@ == (SpecReader {
                data: data@,
                pos: 0,
                offset: Some(ByteOffset(0)),
                ok: true,
            }),
    {
        Ok(BlobReader { data, pos: 0, offset: Some(ByteOffset(0)), last_blob_ok: true })
    }

    /// Pulls the next blob from the data, or nothing at a clean end of data
    /// or after the reader has halted.
    pub fn next(&mut self) -> (r: Option<Result<Blob>>)
        ensures
            final(self)@ == spec_reader_next(old(self)@).0,
            match spec_reader_next(old(self)@).1 {
                SpecNext::End => r is None,
                SpecNext::Item(b) => r matches Some(Ok(blob)) && blob@ == b,
                SpecNext::Fail(f) => r matches Some(Err(e)) && spec_fail_kind(f, e@),
            },
    {
        if !self.last_blob_ok {
            return None;
        }
        let n = self.data.len();
        if self.pos >= n {
            self.offset = None;
            return None;
        }
        if n - self.pos < 4 {
            self.offset = None;
            self.last_blob_ok = false;
            return Some(Err(new_blob_error(BlobError::InvalidHeaderSize)));
        }
        let prev_offset = self.offset;
        let header_size = read_be_u32(&self.data, self.pos) as u64;
        self.pos = self.pos + 4;
        self.offset = match self.offset {
            Some(o) => Some(ByteOffset(o.0.wrapping_add(4))),
            None => None,
        };
        if header_size >= MAX_BLOB_HEADER_SIZE {
            self.last_blob_ok = false;
            return Some(Err(new_blob_error(BlobError::HeaderTooBig { size: header_size })));
        }
        let avail = n - self.pos;
        let hlen: usize = if header_size <= avail as u64 {
            header_size as usize
        } else {
            avail
        };
        let header_bytes = crate::wire::copy_range(&self.data, self.pos, self.pos + hlen);
        self.pos = self.pos + hlen;
        let header = match parse_blob_header(&header_bytes) {
            Ok(h) => h,
            Err(e) => {
                self.offset = None;
                self.last_blob_ok = false;
                return Some(Err(new_protobuf_error(e, "blob header")));
            },
        };
        let datasize = crate::wire::i32_as_u64(header.datasize);
        let avail2 = n - self.pos;
        let blen: usize = if datasize <= avail2 as u64 {
            datasize as usize
        } else {
            avail2
        };
        let body_bytes = crate::wire::copy_range(&self.data, self.pos, self.pos + blen);
        self.pos = self.pos + blen;
        let body = match parse_blob_data(&body_bytes) {
            Ok(d) => d,
            Err(e) => {
                self.offset = None;
                self.last_blob_ok = false;
                return Some(Err(new_protobuf_error(e, "blob content")));
            },
        };
        self.offset = match self.offset {
            Some(o) => Some(ByteOffset(o.0.wrapping_add(header_size).wrapping_add(datasize))),
            None => None,
        };
        Some(Ok(Blob::new(header, body, prev_offset)))
    }

    /// Seek to an offset in bytes from the start of the data. The offset
    /// should point at the start of a blob's length field, such as one a
    /// read blob reported, or the next pull will fail or mis-parse.
    pub fn seek(&mut self, pos: ByteOffset) -> (r: Result<()>)
        requires
            pos.0 <= usize::MAX,
        ensures
            r is Ok,
            final(self)@ == (SpecReader { pos: pos.0 as int, offset: Some(pos), ..old(self)@ }),
    {
        self.pos = pos.0 as usize;
        self.offset = Some(pos);
        Ok(())
    }

    /// Seek to an offset in bytes relative to the start, the end, or the
    /// current position; a target before the start of the data is an error.
    pub fn seek_raw(&mut self, pos: SeekFrom) -> (r: Result<u64>)
        ensures
            ({
                let t = spec_seek_target(old(self)@, pos);
                if 0 <= t <= usize::MAX {
                    r matches Ok(v) && v == t && final(self)@ == (SpecReader {
                        pos: t,
                        offset: Some(ByteOffset(t as u64)),
                        ..old(self)@
                    })
                } else {
                    r matches Err(e) && e@ == ErrorKind::Io && final(self)@ == (SpecReader {
                        offset: None,
                        ..old(self)@
                    })
                }
            }),
    {
        let base: usize = match pos {
            SeekFrom::Start(_) => 0,
            SeekFrom::End(_) => self.data.len(),
            SeekFrom::Current(_) => self.pos,
        };
        let target: Option<usize> = match pos {
            SeekFrom::Start(nn) => {
                if nn <= usize::MAX as u64 {
                    Some(nn as usize)
                } else {
                    None
                }
            },
            SeekFrom::End(d) | SeekFrom::Current(d) => {
                if d >= 0 {
                    if (d as u64) <= (usize::MAX - base) as u64 {
                        Some(base + (d as usize))
                    } else {
                        None
                    }
                } else {
                    let m = ((-(d + 1)) as u64) + 1;
                    if m <= base as u64 {
                        Some(base - (m as usize))
                    } else {
                        None
                    }
                }
            },
        };
        match target {
            Some(t) => {
                self.pos = t;
                self.offset = Some(ByteOffset(t as u64));
                Ok(t as u64)
            },
            None => {
                self.offset = None;
                Err(new_error(ErrorKind::Io))
            },
        }
    }
}


/// Halting is permanent: a pull that fails leaves the reader halted, and a
/// halted reader yields nothing further and never changes again.
pub proof fn lemma_halt_is_permanent(r: SpecReader)
    ensures
        spec_reader_next(r).1 matches SpecNext::Fail(_) ==> !spec_reader_next(r).0.ok,
        !r.ok ==> spec_reader_next(r) == (r, SpecNext::End),
{
}

/// Header-size bound: when the four-byte length field at the read position
/// holds a value at or over `MAX_BLOB_HEADER_SIZE`, the pull fails with
/// that size and the reader halts.
pub proof fn lemma_header_size_bound(r: SpecReader)
    requires
        r.ok,
        0 <= r.pos,
        r.pos + 4 <= r.data.len(),
        spec_be_u32(r.data.subrange(r.pos, r.pos + 4)) as u64 >= MAX_BLOB_HEADER_SIZE,
    ensures
        spec_reader_next(r).1 == SpecNext::Fail(
            SpecFail::HeaderTooBig(spec_be_u32(r.data.subrange(r.pos, r.pos + 4)) as u64),
        ),
        !spec_reader_next(r).0.ok,
{
}

/// Round-trip offsets: when a reader whose tracked offset agrees with its
/// position yields a blob, the blob's offset is the position the read
/// started at; a same-data live reader seeked to that offset (its position
/// and tracked offset both there) yields a blob with the same header, the
/// same body and the same offset.
pub proof fn lemma_offset_round_trip(r1: SpecReader, b: SpecBlob, r2: SpecReader, b2: SpecBlob)
    requires
        r1.ok,
        0 <= r1.pos <= u64::MAX,
        r1.offset == Some(ByteOffset(r1.pos as u64)),
        spec_reader_next(r1).1 == SpecNext::Item(b),
        r2.data == r1.data,
        r2.ok,
        b.offset matches Some(o) && r2.pos == o.0 && r2.offset == Some(o),
        spec_reader_next(r2).1 == SpecNext::Item(b2),
    ensures
        b.offset == Some(ByteOffset(r1.pos as u64)),
        b2.header == b.header,
        b2.data == b.data,
        b2.offset == b.offset,
{
    assert(r2.pos == r1.pos);
}

} // verus!
