//! The `ChunkHeader` value: one parsed chunk's position and size metadata,
//! with overflow-checked derived-address queries.

use vstd::prelude::*;

verus! {

/// Why a construction or an address computation was rejected.
#[derive(Clone, Copy, Debug, PartialEq, Eq, Structural)]
pub enum ChunkError {
    /// The declared header length exceeds the declared total chunk length.
    InvalidChunkHeader,
    /// A derived-address addition would exceed the address type's range.
    AddressOverflow,
    /// A relative-to-absolute translation falls outside `[0, chunk_size)`.
    OffsetOutOfBounds,
}

/// Position and size metadata of one chunk, as declared by its on-disk
/// header: the chunk's absolute start, its header's own length, the chunk's
/// total length (header included), and an opaque type tag.
#[derive(Clone, Copy, Debug)]
pub struct ChunkHeader {
    pub offset: u64,
    pub header_size: u16,
    pub chunk_size: u32,
    pub chunk_type: u16,
}

/// A well-formed header's own length fits within its declared chunk length,
/// so the payload cannot have negative length.
pub open spec fn wf(h: ChunkHeader) -> bool {
    h.header_size <= h.chunk_size
}

/// The header a successful construction yields: the four fields verbatim.
pub open spec fn spec_new(
    offset: u64,
    header_size: u16,
    chunk_size: u32,
    chunk_type: u16,
) -> ChunkHeader {
    ChunkHeader { offset, header_size, chunk_size, chunk_type }
}

/// Absolute start of the payload: `offset + header_size`, as an unbounded
/// integer (the executable query reports overflow instead of wrapping).
pub open spec fn spec_data_offset(h: ChunkHeader) -> int {
    h.offset + h.header_size
}

/// Absolute first byte past the chunk (exclusive bound): `offset +
/// chunk_size`, as an unbounded integer.
pub open spec fn spec_chunk_end(h: ChunkHeader) -> int {
    h.offset + h.chunk_size
}

impl ChunkHeader {
    /// Stores the raw fields read from the container, rejecting a header
    /// whose declared header length exceeds the declared chunk length.
    pub fn new(offset: u64, header_size: u16, chunk_size: u32, chunk_type: u16) -> (r: Result<
        ChunkHeader,
        ChunkError,
    >)
        ensures
            r is Ok <==> header_size <= chunk_size,
            r matches Ok(h) ==> h == spec_new(offset, header_size, chunk_size, chunk_type),
            r matches Ok(h) ==> wf(h),
            r matches Err(e) ==> e == ChunkError::InvalidChunkHeader,
    {
        if header_size as u32 <= chunk_size {
            Ok(ChunkHeader { offset, header_size, chunk_size, chunk_type })
        } else {
            Err(ChunkError::InvalidChunkHeader)
        }
    }

    /// Absolute position of the start of the chunk, header included.
    pub fn offset(&self) -> (r: u64)
        ensures
            r == self.offset,
    {
        self.offset
    }

    /// Length in bytes of the chunk's header.
    pub fn header_size(&self) -> (r: u16)
        ensures
            r == self.header_size,
    {
        self.header_size
    }

    /// Absolute start of the payload, `offset + header_size`; reports
    /// `AddressOverflow` instead of wrapping when the sum does not fit.
    pub fn data_offset(&self) -> (r: Result<u64, ChunkError>)
        ensures
            r is Ok <==> spec_data_offset(*self) <= u64::MAX,
            r matches Ok(d) ==> d == spec_data_offset(*self),
            r matches Err(e) ==> e == ChunkError::AddressOverflow,
    {
        let header_size: u64 = self.header_size as u64;
        if header_size <= u64::MAX - self.offset {
            Ok(self.offset + header_size)
        } else {
            Err(ChunkError::AddressOverflow)
        }
    }

    /// Absolute first byte past the chunk, `offset + chunk_size`; reports
    /// `AddressOverflow` instead of wrapping when the sum does not fit.
    pub fn chunk_end(&self) -> (r: Result<u64, ChunkError>)
        ensures
            r is Ok <==> spec_chunk_end(*self) <= u64::MAX,
            r matches Ok(e) ==> e == spec_chunk_end(*self),
            r matches Err(e) ==> e == ChunkError::AddressOverflow,
    {
        let chunk_size: u64 = self.chunk_size as u64;
        if chunk_size <= u64::MAX - self.offset {
            Ok(self.offset + chunk_size)
        } else {
            Err(ChunkError::AddressOverflow)
        }
    }

    /// Translates a payload-relative offset into an absolute file offset.
    /// A `relative` at or past `chunk_size` is rejected as
    /// `OffsetOutOfBounds`; a sum past the address range is rejected as
    /// `AddressOverflow`; a returned address always lies inside the chunk,
    /// in `[offset, chunk_end)`.
    pub fn absolute(&self, relative: u64) -> (r: Result<u64, ChunkError>)
        ensures
            relative >= self.chunk_size ==> r == Err::<u64, ChunkError>(
                ChunkError::OffsetOutOfBounds,
            ),
            relative < self.chunk_size && self.offset + relative > u64::MAX ==> r == Err::<
                u64,
                ChunkError,
            >(ChunkError::AddressOverflow),
            relative < self.chunk_size && self.offset + relative <= u64::MAX ==> (r matches Ok(a)
                && a == self.offset + relative),
            r matches Ok(a) ==> self.offset <= a && a < spec_chunk_end(*self),
    {
        if relative >= self.chunk_size as u64 {
            return Err(ChunkError::OffsetOutOfBounds);
        }
        if relative <= u64::MAX - self.offset {
            Ok(self.offset + relative)
        } else {
            Err(ChunkError::AddressOverflow)
        }
    }

    /// The chunk's opaque type tag; its meaning is owned by higher layers.
    pub fn token(&self) -> (r: u16)
        ensures
            r == self.chunk_type,
    {
        self.chunk_type
    }

    /// Human-readable rendering of the tag (hex), start, payload start and
    /// end, for logging and debugging only; no behavioral contract. The
    /// derived addresses are widened so the rendering itself cannot fail.
    pub fn describe(&self) -> String {
        let data: u128 = self.offset as u128 + self.header_size as u128;
        let end: u128 = self.offset as u128 + self.chunk_size as u128;
        render_diag(self.chunk_type, self.offset, data, end)
    }
}

/// Relies on std's `format!` macro to render integers as decimal and
/// hexadecimal text; diagnostic only.
#[verifier::external_body]
fn render_diag(chunk_type: u16, offset: u64, data: u128, end: u128) -> String {
    format!("(Token:{:X}; Start: {}; Data: {}; End {})", chunk_type, offset, data, end)
}

/// Law: for a header whose declared header length fits within its declared
/// chunk length, the derived addresses are ordered — the payload starts at
/// or after the chunk's start and ends at or before the chunk's end:
/// `offset <= data_offset <= chunk_end`.
pub proof fn lemma_address_order(h: ChunkHeader)
    requires
        wf(h),
    ensures
        h.offset <= spec_data_offset(h),
        spec_data_offset(h) <= spec_chunk_end(h),
{
}

/// Law: a translated relative offset inside the declared chunk length lands
/// exactly at `offset + relative`, inside `[offset, chunk_end)`.
pub proof fn lemma_absolute_in_bounds(h: ChunkHeader, relative: u64)
    requires
        relative < h.chunk_size,
    ensures
        h.offset <= h.offset + relative,
        h.offset + relative < spec_chunk_end(h),
{
}

/// Law: construction is lossless — a header built from given fields holds
/// exactly those fields, so each accessor reads back the constructed value.
pub proof fn lemma_round_trip(offset: u64, header_size: u16, chunk_size: u32, chunk_type: u16)
    requires
        header_size <= chunk_size,
    ensures
        spec_new(offset, header_size, chunk_size, chunk_type).offset == offset,
        spec_new(offset, header_size, chunk_size, chunk_type).header_size == header_size,
        spec_new(offset, header_size, chunk_size, chunk_type).chunk_size == chunk_size,
        spec_new(offset, header_size, chunk_size, chunk_type).chunk_type == chunk_type,
{
}

} // verus!
