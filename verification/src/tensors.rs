use vstd::prelude::*;
use crate::bf16::{bf16_decode, to_f32_bits};
use crate::names::{layer_tensor_name, spec_layer_tensor_name, LayerTensor};
use vstd::slice::slice_subrange;
use crate::safetensors_io::{
    end_fits, header_bytes, header_in_reach, header_length_field, metadata_end, metadata_parses,
    metadata_data_len, parse_metadata, safetensors_dtype_bits, shape_elements,
    deserialize, entry_data, entry_shape, find, read_header, safetensors_accepts, safetensors_data,
    safetensors_has, safetensors_header_len, safetensors_offsets, safetensors_shape,
    tensor_offsets, FileHeader, ParsedFile,
};

verus! {

/// The reader that was asked for a tensor.
#[derive(Clone, Copy, Debug, PartialEq, Eq, Structural)]
pub enum Reader {
    /// `get_tensor1`: a one-dimensional weight.
    Tensor1,
    /// `get_tensor2`: a matrix.
    Tensor2,
    /// `get_scalar`: a single number.
    Scalar,
    /// `get_table`: a table located in the file.
    Table,
}

/// Why a weight could not be read from a checkpoint.
#[derive(Clone, Debug)]
pub enum LoadError {
    /// The bytes are not a safetensors file.
    Parse,
    /// The file has no tensor of this name (asked for by this reader).
    TensorNotFound(Reader, String),
    /// A matrix was asked for, but the tensor has fewer than two dimensions.
    NotAMatrix(String),
    /// The tensor's first two dimensions do not multiply to its element count.
    ShapeMismatch(String),
    /// A scalar was asked for, but the tensor holds no element.
    Empty(String),
}

/// A parsed safetensors checkpoint that borrows the bytes of the file.
pub struct TensorFile<'a> {
    parsed: ParsedFile<'a>,
    header: FileHeader,
}

/// A two-dimensional weight: `rows * cols` f32 bit patterns, row-major.
#[derive(Clone, Debug)]
pub struct Matrix {
    pub rows: usize,
    pub cols: usize,
    pub bits: Vec<u32>,
}

/// The f32 bit patterns of the named tensor, read as bf16 numbers.
pub open spec fn tensor_values(file: Seq<u8>, name: Seq<char>) -> Seq<u32> {
    bf16_decode(safetensors_data(file, name))
}

impl LoadError {
    /// The name of the tensor that the error is about (empty for `Parse`).
    pub open spec fn tensor_name(self) -> Seq<char> {
        match self {
            LoadError::Parse => Seq::empty(),
            LoadError::TensorNotFound(_, n) => n@,
            LoadError::NotAMatrix(n) => n@,
            LoadError::ShapeMismatch(n) => n@,
            LoadError::Empty(n) => n@,
        }
    }
}

/// `e` reports that `reader` found no tensor called `name`.
pub open spec fn is_not_found(e: LoadError, reader: Reader, name: Seq<char>) -> bool {
    e is TensorNotFound && e->TensorNotFound_0 == reader && e.tensor_name() == name
}

/// Whether the named tensor can be read as a matrix weight.
pub open spec fn matrix_readable(file: Seq<u8>, name: Seq<char>) -> bool {
    safetensors_has(file, name) && is_matrix(file, name)
}

/// Whether the named tensor can be read as a scalar weight.
pub open spec fn scalar_readable(file: Seq<u8>, name: Seq<char>) -> bool {
    safetensors_has(file, name) && tensor_values(file, name).len() > 0
}

/// `m` holds the named tensor, shaped by its first two dimensions.
pub open spec fn matrix_loaded(file: Seq<u8>, name: Seq<char>, m: Matrix) -> bool {
    &&& m.rows == safetensors_shape(file, name)[0]
    &&& m.cols == safetensors_shape(file, name)[1]
    &&& m.bits@ == tensor_values(file, name)
}

/// The bytes of the named tensor are the part of the file that starts at
/// `offset`.
pub open spec fn table_at(file: Seq<u8>, offset: int, name: Seq<char>) -> bool {
    let data = safetensors_data(file, name);
    &&& 0 <= offset
    &&& offset + data.len() <= file.len()
    &&& file.subrange(offset, offset + data.len()) == data
}

/// The named tensor's bytes hold exactly its elements at its dtype's width.
pub open spec fn table_extent(file: Seq<u8>, name: Seq<char>) -> bool {
    safetensors_data(file, name).len() * 8 == shape_elements(safetensors_shape(file, name))
        * safetensors_dtype_bits(file, name)
}

/// Whether the named tensor can be located as a table: it exists and has at
/// least two dimensions.
pub open spec fn table_readable(file: Seq<u8>, name: Seq<char>) -> bool {
    safetensors_has(file, name) && safetensors_shape(file, name).len() >= 2
}

/// Whether the named tensor can be read as a matrix: it has at least two
/// dimensions, and the first two multiply to its element count.
pub open spec fn is_matrix(file: Seq<u8>, name: Seq<char>) -> bool {
    let shape = safetensors_shape(file, name);
    shape.len() >= 2 && shape[0] * shape[1] == tensor_values(file, name).len()
}

/// The header length stored in the first eight bytes of `buffer`.
fn header_length(buffer: &[u8]) -> (n: u64)
    requires
        buffer@.len() >= 8,
    ensures
        n == header_length_field(buffer@),
{
    (buffer[0] as u64) + 256 * (buffer[1] as u64) + 65536 * (buffer[2] as u64) + 16777216 * (
    buffer[3] as u64) + 4294967296 * (buffer[4] as u64) + 1099511627776 * (buffer[5] as u64)
        + 281474976710656 * (buffer[6] as u64) + 72057594037927936 * (buffer[7] as u64)
}

/// Whether the data length, the header length and the eight length bytes of
/// `buffer` add up without overflowing a `usize`, wherever the header parses.
fn length_sum_fits(buffer: &[u8]) -> (fits: bool)
    ensures
        fits == end_fits(buffer@),
{
    let len: usize = buffer.len();
    if len < 8 {
        return true;
    }
    let n64: u64 = header_length(buffer);
    if n64 > 100_000_000 {
        return true;
    }
    let n: usize = n64 as usize;
    if n > len - 8 {
        return true;
    }
    let header = slice_subrange(buffer, 8, 8 + n);
    assert(header@ == header_bytes(buffer@));
    match parse_metadata(header) {
        None => true,
        Some(m) => {
            let end: usize = metadata_end(&m);
            end <= usize::MAX - 8 - n
        },
    }
}

/// A checkpoint is refused for its length exactly when the end of its data,
/// the eight length bytes and the header together pass the largest `usize`:
/// every file whose sum fits is let through to the parser.
pub proof fn lemma_end_fits_is_the_usize_bound(file: Seq<u8>)
    ensures
        metadata_data_len(header_bytes(file)) + 8 + header_length_field(file) <= usize::MAX
            ==> end_fits(file),
        header_in_reach(file) && metadata_parses(header_bytes(file)) && metadata_data_len(
            header_bytes(file),
        ) + 8 + header_length_field(file) > usize::MAX ==> !end_fits(file),
{
}

/// The value of little-endian bytes, least significant first.
pub open spec fn little_endian_value(bytes: Seq<u8>) -> nat
    decreases bytes.len(),
{
    if bytes.len() == 0 {
        0
    } else {
        bytes[0] as nat + 256 * little_endian_value(bytes.drop_first())
    }
}

/// The header length is the little-endian value of the file's first eight
/// bytes.
pub proof fn lemma_header_length_is_little_endian(file: Seq<u8>)
    requires
        file.len() >= 8,
    ensures
        header_length_field(file) == little_endian_value(file.take(8)),
{
    let b = file.take(8);
    reveal_with_fuel(little_endian_value, 9);
    assert(b.drop_first()[0] == file[1]);
    assert(b.drop_first().drop_first()[0] == file[2]);
    assert(b.drop_first().drop_first().drop_first()[0] == file[3]);
    assert(b.drop_first().drop_first().drop_first().drop_first()[0] == file[4]);
    assert(b.drop_first().drop_first().drop_first().drop_first().drop_first()[0] == file[5]);
    assert(b.drop_first().drop_first().drop_first().drop_first().drop_first().drop_first()[0]
        == file[6]);
    assert(b.drop_first().drop_first().drop_first().drop_first().drop_first().drop_first().drop_first()[0]
        == file[7]);
    assert(b.drop_first().drop_first().drop_first().drop_first().drop_first().drop_first().drop_first().drop_first().len()
        == 0);
}

impl<'a> TensorFile<'a> {
    /// The parsed file and its header come from the same bytes, which fit in
    /// memory.
    #[verifier::type_invariant]
    spec fn same_source(self) -> bool {
        &&& self.parsed.source() == self.header.source()
        &&& self.parsed.source().len() <= usize::MAX
        &&& self.header.spec_header_len() == safetensors_header_len(self.header.source())
    }

    /// The bytes of the file this checkpoint was parsed from.
    pub closed spec fn source(&self) -> Seq<u8> {
        self.parsed.source()
    }

    /// Parses the bytes of a whole safetensors file. A file whose declared
    /// data would end beyond the largest `usize` is refused before the
    /// `safetensors` crate adds up its length (that sum would overflow).
    pub fn open(buffer: &'a [u8]) -> (res: Result<TensorFile<'a>, LoadError>)
        ensures
            res is Ok <==> safetensors_accepts(buffer@) && end_fits(buffer@),
            res matches Ok(f) ==> f.source() == buffer@,
            res matches Err(e) ==> e is Parse,
    {
        if !length_sum_fits(buffer) {
            return Err(LoadError::Parse);
        }
        let parsed = match deserialize(buffer) {
            Ok(f) => f,
            Err(_) => {
                return Err(LoadError::Parse);
            },
        };
        match read_header(buffer) {
            Ok(header) => {
                assert(buffer@.len() == buffer.len());
                Ok(TensorFile { parsed, header })
            },
            Err(_) => Err(LoadError::Parse),
        }
    }

    /// Reads a one-dimensional weight: every bf16 number of the named tensor.
    pub fn get_tensor1(&self, name: &str) -> (res: Result<Vec<u32>, LoadError>)
        ensures
            res is Ok <==> safetensors_has(self.source(), name@),
            res matches Ok(v) ==> v@ == tensor_values(self.source(), name@),
            res matches Err(e) ==> is_not_found(e, Reader::Tensor1, name@),
    {
        match find(&self.parsed, name) {
            Ok(t) => Ok(to_f32_bits(entry_data(&t))),
            Err(_) => Err(LoadError::TensorNotFound(Reader::Tensor1, String::from_str(name))),
        }
    }

    /// Reads a two-dimensional weight, shaped by the tensor's first two
    /// dimensions.
    pub fn get_tensor2(&self, name: &str) -> (res: Result<Matrix, LoadError>)
        ensures
            res is Ok <==> safetensors_has(self.source(), name@) && is_matrix(
                self.source(),
                name@,
            ),
            res matches Ok(m) ==> {
                &&& m.rows == safetensors_shape(self.source(), name@)[0]
                &&& m.cols == safetensors_shape(self.source(), name@)[1]
                &&& m.bits@ == tensor_values(self.source(), name@)
                &&& m.rows * m.cols == m.bits@.len()
            },
            res matches Err(e) ==> {
                &&& !safetensors_has(self.source(), name@) ==> is_not_found(e, Reader::Tensor2, name@)
                &&& safetensors_has(self.source(), name@) && safetensors_shape(
                    self.source(),
                    name@,
                ).len() < 2 ==> (e is NotAMatrix && e.tensor_name() == name@)
                &&& safetensors_has(self.source(), name@) && safetensors_shape(
                    self.source(),
                    name@,
                ).len() >= 2 ==> (e is ShapeMismatch && e.tensor_name() == name@)
            },
    {
        let t = match find(&self.parsed, name) {
            Ok(t) => t,
            Err(_) => {
                return Err(LoadError::TensorNotFound(Reader::Tensor2, String::from_str(name)));
            },
        };
        let shape = entry_shape(&t);
        if shape.len() < 2 {
            return Err(LoadError::NotAMatrix(String::from_str(name)));
        }
        let rows = shape[0];
        let cols = shape[1];
        let bits = to_f32_bits(entry_data(&t));
        match rows.checked_mul(cols) {
            Some(n) => {
                if n == bits.len() {
                    Ok(Matrix { rows, cols, bits })
                } else {
                    Err(LoadError::ShapeMismatch(String::from_str(name)))
                }
            },
            None => {
                let count: usize = bits.len();
                assert(rows * cols > count);
                Err(LoadError::ShapeMismatch(String::from_str(name)))
            },
        }
    }

    /// Reads a scalar weight: the first bf16 number of the named tensor.
    pub fn get_scalar(&self, name: &str) -> (res: Result<u32, LoadError>)
        ensures
            res is Ok <==> safetensors_has(self.source(), name@) && tensor_values(
                self.source(),
                name@,
            ).len() > 0,
            res matches Ok(x) ==> x == tensor_values(self.source(), name@)[0],
            res matches Err(e) ==> {
                &&& !safetensors_has(self.source(), name@) ==> is_not_found(e, Reader::Scalar, name@)
                &&& safetensors_has(self.source(), name@) ==> (e is Empty && e.tensor_name() == name@)
            },
    {
        match find(&self.parsed, name) {
            Ok(t) => {
                let bits = to_f32_bits(entry_data(&t));
                if bits.len() == 0 {
                    Err(LoadError::Empty(String::from_str(name)))
                } else {
                    Ok(bits[0])
                }
            },
            Err(_) => Err(LoadError::TensorNotFound(Reader::Scalar, String::from_str(name))),
        }
    }

    /// Locates a table that is read row by row later: where its bytes start
    /// in the file, and its first two dimensions.
    pub fn get_table(&self, name: &str) -> (res: Result<(usize, usize, usize), LoadError>)
        ensures
            res is Ok <==> table_readable(self.source(), name@),
            res matches Ok(r) ==> {
                &&& table_at(self.source(), r.0 as int, name@)
                &&& table_extent(self.source(), name@)
                &&& r.0 == 8 + safetensors_header_len(self.source()) + safetensors_offsets(
                    self.source(),
                    name@,
                ).0
                &&& r.1 == safetensors_shape(self.source(), name@)[0]
                &&& r.2 == safetensors_shape(self.source(), name@)[1]
            },
            res matches Err(e) ==> {
                &&& !safetensors_has(self.source(), name@) ==> is_not_found(e, Reader::Table, name@)
                &&& safetensors_has(self.source(), name@) ==> (e is NotAMatrix
                    && e.tensor_name() == name@)
            },
    {
        proof {
            use_type_invariant(self);
        }
        let t = match find(&self.parsed, name) {
            Ok(t) => t,
            Err(_) => {
                return Err(LoadError::TensorNotFound(Reader::Table, String::from_str(name)));
            },
        };
        let shape = entry_shape(&t);
        if shape.len() < 2 {
            return Err(LoadError::NotAMatrix(String::from_str(name)));
        }
        let rows = shape[0];
        let cols = shape[1];
        match tensor_offsets(&self.header, name) {
            Some((begin, end)) => {
                let n = self.header.header_len();
                proof {
                    let data = safetensors_data(self.source(), name@);
                    assert(data.len() == end - begin);
                    assert(self.source().subrange(
                        8 + n + begin,
                        8 + n + begin + data.len(),
                    ) == data);
                }
                Ok((8 + n + begin, rows, cols))
            },
            None => Err(LoadError::TensorNotFound(Reader::Table, String::from_str(name))),
        }
    }
}

} // verus!
