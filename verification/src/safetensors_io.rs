//! The calls into the `safetensors` crate and the values they hand back.
//! The structs here are built only by the functions of this module, which
//! record in their ghost fields the bytes and the name each call was made on.

use vstd::prelude::*;
use safetensors::tensor::{Metadata, TensorView};
use safetensors::{SafeTensorError, SafeTensors};

verus! {

#[verifier::external_type_specification]
#[verifier::external_body]
pub struct ExSafeTensors<'data>(SafeTensors<'data>);

#[verifier::external_type_specification]
#[verifier::external_body]
pub struct ExTensorView<'data>(TensorView<'data>);

#[verifier::external_type_specification]
#[verifier::external_body]
pub struct ExMetadata(Metadata);

#[verifier::external_type_specification]
#[verifier::external_body]
pub struct ExSafeTensorError(SafeTensorError);

/// Whether `SafeTensors::deserialize` (and `SafeTensors::read_metadata`,
/// which it runs) accepts the bytes of a whole file.
pub uninterp spec fn safetensors_accepts(file: Seq<u8>) -> bool;

/// Whether `SafeTensors::tensor` (and `Metadata::info`) finds a tensor of
/// that name in the file.
pub uninterp spec fn safetensors_has(file: Seq<u8>, name: Seq<char>) -> bool;

/// The shape that `TensorView::shape` reports for the named tensor.
pub uninterp spec fn safetensors_shape(file: Seq<u8>, name: Seq<char>) -> Seq<usize>;

/// The bytes that `TensorView::data` gives for the named tensor.
pub uninterp spec fn safetensors_data(file: Seq<u8>, name: Seq<char>) -> Seq<u8>;

/// The length of the JSON header that `SafeTensors::read_metadata` reports.
pub uninterp spec fn safetensors_header_len(file: Seq<u8>) -> nat;

/// The `data_offsets` that `Metadata::info` records for the named tensor,
/// counted from the end of the header.
pub uninterp spec fn safetensors_offsets(file: Seq<u8>, name: Seq<char>) -> (nat, nat);

/// The number of bits of one element of the named tensor's dtype
/// (`Dtype::bitsize` of the dtype that `Metadata::info` records).
pub uninterp spec fn safetensors_dtype_bits(file: Seq<u8>, name: Seq<char>) -> nat;

/// Whether `serde_json::from_slice` reads these header bytes as a
/// safetensors `Metadata` (which also validates the tensors' offsets).
pub uninterp spec fn metadata_parses(header: Seq<u8>) -> bool;

/// What `Metadata::data_len` gives for the `Metadata` read from these
/// header bytes: where the last tensor's data ends.
pub uninterp spec fn metadata_data_len(header: Seq<u8>) -> nat;

/// The header length stored little-endian in the first eight bytes of a
/// safetensors file.
pub open spec fn header_length_field(file: Seq<u8>) -> int {
    file[0] + 256 * file[1] + 65536 * file[2] + 16777216 * file[3] + 4294967296 * file[4]
        + 1099511627776 * file[5] + 281474976710656 * file[6] + 72057594037927936 * file[7]
}

/// The header that `SafeTensors::read_metadata` parses, when the file is
/// long enough to hold it and it is no longer than the crate allows.
pub open spec fn header_in_reach(file: Seq<u8>) -> bool {
    &&& file.len() >= 8
    &&& header_length_field(file) <= 100_000_000
    &&& 8 + header_length_field(file) <= file.len()
}

/// The bytes of that header.
pub open spec fn header_bytes(file: Seq<u8>) -> Seq<u8> {
    file.subrange(8, 8 + header_length_field(file))
}

/// `SafeTensors::read_metadata` adds the data length, eight and the header
/// length in a `usize` once the header has parsed; this says the sum fits.
pub open spec fn end_fits(file: Seq<u8>) -> bool {
    header_in_reach(file) && metadata_parses(header_bytes(file)) ==> metadata_data_len(
        header_bytes(file),
    ) + 8 + header_length_field(file) <= usize::MAX
}

/// The number of elements of a tensor of this shape.
pub open spec fn shape_elements(shape: Seq<usize>) -> nat
    decreases shape.len(),
{
    if shape.len() == 0 {
        1
    } else {
        shape_elements(shape.drop_last()) * (shape.last() as nat)
    }
}

/// A header read on its own by `serde_json::from_slice`.
pub(crate) struct HeaderMetadata {
    metadata: Metadata,
    header: Ghost<Seq<u8>>,
}

impl HeaderMetadata {
    /// The header bytes it was read from.
    pub(crate) closed spec fn header(&self) -> Seq<u8> {
        self.header@
    }
}

/// A file as parsed by `SafeTensors::deserialize`.
pub(crate) struct ParsedFile<'a> {
    tensors: SafeTensors<'a>,
    source: Ghost<Seq<u8>>,
}

/// A file's header as read by `SafeTensors::read_metadata`.
pub(crate) struct FileHeader {
    metadata: Metadata,
    header_len: usize,
    source: Ghost<Seq<u8>>,
}

/// One tensor of a parsed file, as found by `SafeTensors::tensor`.
pub(crate) struct TensorEntry<'a> {
    view: TensorView<'a>,
    source: Ghost<Seq<u8>>,
    name: Ghost<Seq<char>>,
}

impl<'a> ParsedFile<'a> {
    /// The bytes the file was parsed from.
    pub(crate) closed spec fn source(&self) -> Seq<u8> {
        self.source@
    }
}

impl FileHeader {
    /// The bytes the header was read from.
    pub(crate) closed spec fn source(&self) -> Seq<u8> {
        self.source@
    }

    /// The header length that was read.
    pub(crate) closed spec fn spec_header_len(&self) -> nat {
        self.header_len as nat
    }

    /// The header length that was read.
    pub(crate) fn header_len(&self) -> (n: usize)
        ensures
            n == self.spec_header_len(),
    {
        self.header_len
    }
}

impl<'a> TensorEntry<'a> {
    /// The bytes of the file the tensor was found in.
    pub(crate) closed spec fn source(&self) -> Seq<u8> {
        self.source@
    }

    /// The name the tensor was found under.
    pub(crate) closed spec fn name(&self) -> Seq<char> {
        self.name@
    }
}

/// Calls `serde_json::from_slice` to read header bytes as a `Metadata`;
/// claims that it succeeds exactly when `metadata_parses` says so. The
/// outside error is dropped.
#[verifier::external_body]
pub(crate) fn parse_metadata(header: &[u8]) -> (res: Option<HeaderMetadata>)
    ensures
        res is Some <==> metadata_parses(header@),
        res matches Some(m) ==> m.header() == header@,
{
    match serde_json::from_slice::<Metadata>(header) {
        Ok(metadata) => Some(HeaderMetadata { metadata, header: Ghost(header@) }),
        Err(_) => None,
    }
}

/// Calls `Metadata::data_len`; claims the value `metadata_data_len` names.
#[verifier::external_body]
pub(crate) fn metadata_end(m: &HeaderMetadata) -> (n: usize)
    ensures
        n == metadata_data_len(m.header()),
{
    m.metadata.data_len()
}

/// Calls `SafeTensors::deserialize`; claims that it succeeds exactly on the
/// byte strings that `safetensors_accepts` names, and records the bytes.
/// `read_metadata`, which it runs, adds `data_len + 8 + n` in a `usize` once
/// the header has parsed and validated; that sum can overflow (a panic where
/// overflow checks are on), so the call is made only where `end_fits` holds.
/// `serde_json` reads valid UTF-8 header bytes alike from a slice or from a
/// `str`, and `data_len` is the end that validation returns, so `end_fits`
/// covers every file on which the sum is reached.
#[verifier::external_body]
pub(crate) fn deserialize<'a>(buffer: &'a [u8]) -> (res: Result<ParsedFile<'a>, SafeTensorError>)
    requires
        end_fits(buffer@),
    ensures
        res is Ok <==> safetensors_accepts(buffer@),
        res matches Ok(f) ==> f.source() == buffer@,
{
    match SafeTensors::deserialize(buffer) {
        Ok(tensors) => Ok(ParsedFile { tensors, source: Ghost(buffer@) }),
        Err(e) => Err(e),
    }
}

/// Calls `SafeTensors::tensor`; claims that it finds the tensor exactly when
/// `safetensors_has` says so for the file's bytes and the name.
#[verifier::external_body]
pub(crate) fn find<'a>(file: &ParsedFile<'a>, name: &str) -> (res: Result<TensorEntry<'a>, SafeTensorError>)
    ensures
        res is Ok <==> safetensors_has(file.source(), name@),
        res matches Ok(t) ==> t.source() == file.source() && t.name() == name@,
{
    match file.tensors.tensor(name) {
        Ok(view) => Ok(TensorEntry { view, source: Ghost(file.source@), name: Ghost(name@) }),
        Err(e) => Err(e),
    }
}

/// Calls `TensorView::shape`; claims the shape that `safetensors_shape` names.
#[verifier::external_body]
pub(crate) fn entry_shape<'b>(t: &'b TensorEntry) -> (shape: &'b [usize])
    ensures
        shape@ == safetensors_shape(t.source(), t.name()),
{
    t.view.shape()
}

/// Calls `TensorView::data`; claims the bytes that `safetensors_data` names.
#[verifier::external_body]
pub(crate) fn entry_data<'a>(t: &TensorEntry<'a>) -> (data: &'a [u8])
    ensures
        data@ == safetensors_data(t.source(), t.name()),
{
    t.view.data()
}

/// Calls `SafeTensors::read_metadata`; claims that it succeeds on the same
/// files as `SafeTensors::deserialize` (which runs it), that the header
/// length it reports is the one `safetensors_header_len` names, and that the
/// eight length bytes and the header lie inside the file.
/// Not called where the final length sum would overflow (see `deserialize`).
#[verifier::external_body]
pub(crate) fn read_header(buffer: &[u8]) -> (res: Result<FileHeader, SafeTensorError>)
    requires
        end_fits(buffer@),
    ensures
        res is Ok <==> safetensors_accepts(buffer@),
        res matches Ok(h) ==> {
            &&& h.source() == buffer@
            &&& h.spec_header_len() == safetensors_header_len(buffer@)
            &&& 8 + h.spec_header_len() <= buffer@.len()
        },
{
    match SafeTensors::read_metadata(buffer) {
        Ok((header_len, metadata)) => Ok(FileHeader { metadata, header_len, source: Ghost(buffer@) }),
        Err(e) => Err(e),
    }
}

/// Calls `Metadata::info` and hands back the tensor's `data_offsets`.
/// Claims that it finds exactly the tensors that `SafeTensors::tensor` finds,
/// and what the crate's validation and slicing show of the offsets: they are
/// ordered, they span the elements of the shape at the dtype's width, they
/// end inside the file, and `TensorView::data` is the part of the file that
/// they mark after the length bytes and the header.
#[verifier::external_body]
pub(crate) fn tensor_offsets(h: &FileHeader, name: &str) -> (res: Option<(usize, usize)>)
    ensures
        res is Some <==> safetensors_has(h.source(), name@),
        res matches Some(r) ==> {
            &&& (r.0 as nat, r.1 as nat) == safetensors_offsets(h.source(), name@)
            &&& r.0 <= r.1
            &&& (r.1 - r.0) * 8 == shape_elements(safetensors_shape(h.source(), name@))
                * safetensors_dtype_bits(h.source(), name@)
            &&& 8 + h.spec_header_len() + r.1 <= h.source().len()
            &&& safetensors_data(h.source(), name@) == h.source().subrange(
                8 + h.spec_header_len() + r.0,
                8 + h.spec_header_len() + r.1,
            )
        },
{
    match h.metadata.info(name) {
        Some(info) => Some(info.data_offsets),
        None => None,
    }
}

} // verus!
