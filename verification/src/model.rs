use vstd::prelude::*;
use crate::names::{layer_tensor_name, spec_layer_tensor_name, LayerTensor};
use crate::ple::{lemma_ple_row_within_table, ple_row_len, ple_row_start};
use crate::safetensors_io::{
    safetensors_data, safetensors_dtype_bits, safetensors_has, safetensors_shape, shape_elements,
};
use crate::tensors::{
    is_not_found, table_extent, Reader,
    matrix_loaded, matrix_readable, scalar_readable, table_at, table_readable, tensor_values,
    LoadError, Matrix, TensorFile,
};

verus! {

/// One decoder layer's weights, as f32 bit patterns.
#[derive(Clone, Debug)]
pub struct LayerWeights {
    pub attn_q: Matrix,
    pub attn_k: Matrix,
    pub attn_v: Matrix,
    pub attn_o: Matrix,
    pub q_norm: Vec<u32>,
    pub k_norm: Vec<u32>,
    pub up_proj: Matrix,
    pub gate_proj: Matrix,
    pub down_proj: Matrix,
    pub input_norm: Vec<u32>,
    pub post_attn_norm: Vec<u32>,
    pub pre_ffn_norm: Vec<u32>,
    pub post_ffn_norm: Vec<u32>,
    pub projection: Matrix,
    pub input_gate: Matrix,
    pub post_norm: Vec<u32>,
    pub scalar: u32,
}

/// All weights of the model that are kept in memory, and where the
/// per-layer embedding table (read row by row later) lies in the file.
#[derive(Clone, Debug)]
pub struct ModelWeights {
    pub layers: Vec<LayerWeights>,
    pub embd: Matrix,
    pub norm_f: Vec<u32>,
    pub ple_model_proj: Matrix,
    pub ple_proj_norm: Vec<u32>,
    /// First byte of the per-layer embedding table in the file.
    pub ple_offset: usize,
    pub ple_rows: usize,
    pub ple_cols: usize,
}

/// The token embedding, also used as the output projection.
pub open spec fn embed_tokens_name() -> Seq<char> {
    "model.language_model.embed_tokens.weight"@
}

/// The gain of the final norm.
pub open spec fn final_norm_name() -> Seq<char> {
    "model.language_model.norm.weight"@
}

/// The projection of the embedding into per-layer inputs.
pub open spec fn per_layer_projection_name() -> Seq<char> {
    "model.language_model.per_layer_model_projection.weight"@
}

/// The gain of the norm applied to that projection.
pub open spec fn per_layer_projection_norm_name() -> Seq<char> {
    "model.language_model.per_layer_projection_norm.weight"@
}

/// The per-layer embedding table, one row per token.
pub open spec fn per_layer_table_name() -> Seq<char> {
    "model.language_model.embed_tokens_per_layer.weight"@
}

/// The model-wide weights are read under the checkpoint's own names.
pub proof fn lemma_global_names_are_checkpoint_names()
    ensures
        embed_tokens_name() == "model.language_model.embed_tokens.weight"@,
        final_norm_name() == "model.language_model.norm.weight"@,
        per_layer_projection_name() == "model.language_model.per_layer_model_projection.weight"@,
        per_layer_projection_norm_name()
            == "model.language_model.per_layer_projection_norm.weight"@,
        per_layer_table_name() == "model.language_model.embed_tokens_per_layer.weight"@,
{
}

/// The weights that are one-dimensional gains.
pub open spec fn is_gain(t: LayerTensor) -> bool {
    t is QNorm || t is KNorm || t is InputNorm || t is PostAttentionNorm || t is PreFeedforwardNorm
        || t is PostFeedforwardNorm || t is PostPerLayerInputNorm
}

/// The weights that are matrices.
pub open spec fn is_matrix_weight(t: LayerTensor) -> bool {
    !is_gain(t) && !(t is LayerScalar)
}

/// Whether weight `t` of layer `layer` can be read in the form it has.
pub open spec fn weight_readable(file: Seq<u8>, layer: nat, t: LayerTensor) -> bool {
    let name = spec_layer_tensor_name(layer, t);
    if is_gain(t) {
        safetensors_has(file, name)
    } else if t is LayerScalar {
        scalar_readable(file, name)
    } else {
        matrix_readable(file, name)
    }
}

/// Whether every weight of layer `layer` can be read.
pub open spec fn layer_readable(file: Seq<u8>, layer: nat) -> bool {
    forall|t: LayerTensor| #[trigger] weight_readable(file, layer, t)
}

/// The error that the reader of matrices reports for an unreadable tensor.
pub open spec fn matrix_error(file: Seq<u8>, name: Seq<char>, e: LoadError) -> bool {
    if !safetensors_has(file, name) {
        is_not_found(e, Reader::Tensor2, name)
    } else if safetensors_shape(file, name).len() < 2 {
        e is NotAMatrix && e.tensor_name() == name
    } else {
        e is ShapeMismatch && e.tensor_name() == name
    }
}

/// The error that reading weight `t` of layer `layer` reports when the
/// weight cannot be read.
pub open spec fn weight_error(file: Seq<u8>, layer: nat, t: LayerTensor, e: LoadError) -> bool {
    let name = spec_layer_tensor_name(layer, t);
    if is_gain(t) {
        is_not_found(e, Reader::Tensor1, name)
    } else if t is LayerScalar {
        if !safetensors_has(file, name) {
            is_not_found(e, Reader::Scalar, name)
        } else {
            e is Empty && e.tensor_name() == name
        }
    } else {
        matrix_error(file, name, e)
    }
}

/// `e` is the error of the first weight of layer `layer`, in the order the
/// fields of `LayerWeights` are listed, that cannot be read.
pub open spec fn layer_error(file: Seq<u8>, layer: nat, e: LoadError) -> bool {
    if !weight_readable(file, layer, LayerTensor::QProj) {
        weight_error(file, layer, LayerTensor::QProj, e)
    } else if !weight_readable(file, layer, LayerTensor::KProj) {
        weight_error(file, layer, LayerTensor::KProj, e)
    } else if !weight_readable(file, layer, LayerTensor::VProj) {
        weight_error(file, layer, LayerTensor::VProj, e)
    } else if !weight_readable(file, layer, LayerTensor::OProj) {
        weight_error(file, layer, LayerTensor::OProj, e)
    } else if !weight_readable(file, layer, LayerTensor::QNorm) {
        weight_error(file, layer, LayerTensor::QNorm, e)
    } else if !weight_readable(file, layer, LayerTensor::KNorm) {
        weight_error(file, layer, LayerTensor::KNorm, e)
    } else if !weight_readable(file, layer, LayerTensor::UpProj) {
        weight_error(file, layer, LayerTensor::UpProj, e)
    } else if !weight_readable(file, layer, LayerTensor::GateProj) {
        weight_error(file, layer, LayerTensor::GateProj, e)
    } else if !weight_readable(file, layer, LayerTensor::DownProj) {
        weight_error(file, layer, LayerTensor::DownProj, e)
    } else if !weight_readable(file, layer, LayerTensor::InputNorm) {
        weight_error(file, layer, LayerTensor::InputNorm, e)
    } else if !weight_readable(file, layer, LayerTensor::PostAttentionNorm) {
        weight_error(file, layer, LayerTensor::PostAttentionNorm, e)
    } else if !weight_readable(file, layer, LayerTensor::PreFeedforwardNorm) {
        weight_error(file, layer, LayerTensor::PreFeedforwardNorm, e)
    } else if !weight_readable(file, layer, LayerTensor::PostFeedforwardNorm) {
        weight_error(file, layer, LayerTensor::PostFeedforwardNorm, e)
    } else if !weight_readable(file, layer, LayerTensor::PerLayerProjection) {
        weight_error(file, layer, LayerTensor::PerLayerProjection, e)
    } else if !weight_readable(file, layer, LayerTensor::PerLayerInputGate) {
        weight_error(file, layer, LayerTensor::PerLayerInputGate, e)
    } else if !weight_readable(file, layer, LayerTensor::PostPerLayerInputNorm) {
        weight_error(file, layer, LayerTensor::PostPerLayerInputNorm, e)
    } else if !weight_readable(file, layer, LayerTensor::LayerScalar) {
        weight_error(file, layer, LayerTensor::LayerScalar, e)
    } else {
        false
    }
}

/// Each field of `l` holds the weight of layer `layer` that it is named for.
pub open spec fn layer_loaded(file: Seq<u8>, layer: nat, l: LayerWeights) -> bool {
    let name = |t: LayerTensor| spec_layer_tensor_name(layer, t);
    &&& matrix_loaded(file, name(LayerTensor::QProj), l.attn_q)
    &&& matrix_loaded(file, name(LayerTensor::KProj), l.attn_k)
    &&& matrix_loaded(file, name(LayerTensor::VProj), l.attn_v)
    &&& matrix_loaded(file, name(LayerTensor::OProj), l.attn_o)
    &&& l.q_norm@ == tensor_values(file, name(LayerTensor::QNorm))
    &&& l.k_norm@ == tensor_values(file, name(LayerTensor::KNorm))
    &&& matrix_loaded(file, name(LayerTensor::UpProj), l.up_proj)
    &&& matrix_loaded(file, name(LayerTensor::GateProj), l.gate_proj)
    &&& matrix_loaded(file, name(LayerTensor::DownProj), l.down_proj)
    &&& l.input_norm@ == tensor_values(file, name(LayerTensor::InputNorm))
    &&& l.post_attn_norm@ == tensor_values(file, name(LayerTensor::PostAttentionNorm))
    &&& l.pre_ffn_norm@ == tensor_values(file, name(LayerTensor::PreFeedforwardNorm))
    &&& l.post_ffn_norm@ == tensor_values(file, name(LayerTensor::PostFeedforwardNorm))
    &&& matrix_loaded(file, name(LayerTensor::PerLayerProjection), l.projection)
    &&& matrix_loaded(file, name(LayerTensor::PerLayerInputGate), l.input_gate)
    &&& l.post_norm@ == tensor_values(file, name(LayerTensor::PostPerLayerInputNorm))
    &&& l.scalar == tensor_values(file, name(LayerTensor::LayerScalar))[0]
}

/// Whether the whole model with `num_layers` layers can be read.
pub open spec fn model_readable(file: Seq<u8>, num_layers: nat) -> bool {
    &&& forall|i: nat| i < num_layers ==> #[trigger] layer_readable(file, i)
    &&& table_readable(file, per_layer_table_name())
    &&& matrix_readable(file, embed_tokens_name())
    &&& safetensors_has(file, final_norm_name())
    &&& matrix_readable(file, per_layer_projection_name())
    &&& safetensors_has(file, per_layer_projection_norm_name())
}

/// `e` is the error of the first weight of the model that cannot be read,
/// in the order `load_model` reads them.
pub open spec fn model_error(file: Seq<u8>, num_layers: nat, e: LoadError) -> bool {
    ||| exists|i: nat|
        i < num_layers && (forall|j: nat| j < i ==> #[trigger] layer_readable(file, j))
            && !layer_readable(file, i) && #[trigger] layer_error(file, i, e)
    ||| (forall|j: nat| j < num_layers ==> #[trigger] layer_readable(file, j)) && globals_error(
        file,
        e,
    )
}

/// `e` is the error of the first model-wide weight that cannot be read: the
/// per-layer table, the embedding, the final norm, the per-layer projection
/// and its norm, in that order.
pub open spec fn globals_error(file: Seq<u8>, e: LoadError) -> bool {
    if !table_readable(file, per_layer_table_name()) {
        if !safetensors_has(file, per_layer_table_name()) {
            is_not_found(e, Reader::Table, per_layer_table_name())
        } else {
            e is NotAMatrix && e.tensor_name() == per_layer_table_name()
        }
    } else if !matrix_readable(file, embed_tokens_name()) {
        matrix_error(file, embed_tokens_name(), e)
    } else if !safetensors_has(file, final_norm_name()) {
        is_not_found(e, Reader::Tensor1, final_norm_name())
    } else if !matrix_readable(file, per_layer_projection_name()) {
        matrix_error(file, per_layer_projection_name(), e)
    } else if !safetensors_has(file, per_layer_projection_norm_name()) {
        is_not_found(e, Reader::Tensor1, per_layer_projection_norm_name())
    } else {
        false
    }
}

/// Each field of `m` holds the weight it is named for, and `ple_offset`
/// marks where the per-layer embedding table's bytes start in the file.
pub open spec fn model_loaded(file: Seq<u8>, num_layers: nat, m: ModelWeights) -> bool {
    &&& m.layers@.len() == num_layers
    &&& forall|i: int| 0 <= i < num_layers ==> layer_loaded(file, i as nat, #[trigger] m.layers@[i])
    &&& matrix_loaded(file, embed_tokens_name(), m.embd)
    &&& m.norm_f@ == tensor_values(file, final_norm_name())
    &&& matrix_loaded(file, per_layer_projection_name(), m.ple_model_proj)
    &&& m.ple_proj_norm@ == tensor_values(file, per_layer_projection_norm_name())
    &&& table_at(file, m.ple_offset as int, per_layer_table_name())
    &&& table_extent(file, per_layer_table_name())
    &&& m.ple_rows == safetensors_shape(file, per_layer_table_name())[0]
    &&& m.ple_cols == safetensors_shape(file, per_layer_table_name())[1]
}

/// A loaded model's per-layer table, when it is a two-dimensional bf16
/// tensor, is the `2 * ple_rows * ple_cols` bytes from `ple_offset` on; and
/// when a row holds `ple_cols` numbers, the row that `ple_row_bits` reads for
/// a token below `ple_rows` lies inside the file and is that token's row of
/// the table.
pub proof fn lemma_ple_rows_inside_table(
    file: Seq<u8>,
    num_layers: nat,
    m: ModelWeights,
    ple_layers: nat,
    ple_dim: nat,
    token: nat,
)
    requires
        model_loaded(file, num_layers, m),
        safetensors_shape(file, per_layer_table_name()).len() == 2,
        safetensors_dtype_bits(file, per_layer_table_name()) == 16,
        token < m.ple_rows,
        ple_layers * ple_dim == m.ple_cols,
    ensures
        ({
            let table = safetensors_data(file, per_layer_table_name());
            let extent = 2 * m.ple_rows * m.ple_cols;
            let row = ple_row_len(ple_layers as int, ple_dim as int);
            let start = ple_row_start(
                m.ple_offset as int,
                ple_layers as int,
                ple_dim as int,
                token as int,
            );
            &&& table.len() == extent
            &&& m.ple_offset + extent <= file.len()
            &&& file.subrange(m.ple_offset as int, m.ple_offset + extent) == table
            &&& m.ple_offset <= start
            &&& start + row <= m.ple_offset + extent
            &&& file.subrange(start, start + row) == table.subrange(
                row * token,
                row * (token + 1),
            )
        }),
{
    let shape = safetensors_shape(file, per_layer_table_name());
    let table = safetensors_data(file, per_layer_table_name());
    let r = m.ple_rows as int;
    let c = m.ple_cols as int;
    assert(shape_elements(shape) == r * c) by {
        let first = shape.drop_last();
        assert(first.drop_last().len() == 0);
        assert(shape_elements(first.drop_last()) == 1);
        assert(first.len() == 1);
        assert(first.last() == shape[0]);
        assert(shape_elements(first) == shape_elements(first.drop_last()) * (first.last() as nat));
        assert(shape_elements(first) == shape[0] as nat);
        assert(shape.last() == shape[1]);
        assert(shape_elements(shape) == shape_elements(first) * (shape[1] as nat));
    }
    assert(table.len() == 2 * r * c) by (nonlinear_arith)
        requires
            table.len() * 8 == r * c * 16,
    ;
    let row = ple_row_len(ple_layers as int, ple_dim as int);
    assert(row == 2 * c) by (nonlinear_arith)
        requires
            row == ple_layers * ple_dim * 2,
            ple_layers * ple_dim == c,
    ;
    assert(row * (token + 1) <= 2 * r * c && 0 <= row * token) by (nonlinear_arith)
        requires
            row == 2 * c,
            c >= 0,
            token + 1 <= r,
            token >= 0,
    ;
    assert(row * token + row == row * (token + 1)) by (nonlinear_arith);
    lemma_ple_row_within_table(file, m.ple_offset as nat, table, ple_layers, ple_dim, token);
}

fn read_matrix(file: &TensorFile, layer: usize, t: LayerTensor) -> (res: Result<Matrix, LoadError>)
    requires
        is_matrix_weight(t),
    ensures
        res is Ok <==> weight_readable(file.source(), layer as nat, t),
        res matches Ok(m) ==> matrix_loaded(
            file.source(),
            spec_layer_tensor_name(layer as nat, t),
            m,
        ),
        res matches Err(e) ==> weight_error(file.source(), layer as nat, t, e),
{
    let name = layer_tensor_name(layer, t);
    let res = file.get_tensor2(name.as_str());
    res
}

fn read_gain(file: &TensorFile, layer: usize, t: LayerTensor) -> (res: Result<Vec<u32>, LoadError>)
    requires
        is_gain(t),
    ensures
        res is Ok <==> weight_readable(file.source(), layer as nat, t),
        res matches Ok(v) ==> v@ == tensor_values(
            file.source(),
            spec_layer_tensor_name(layer as nat, t),
        ),
        res matches Err(e) ==> weight_error(file.source(), layer as nat, t, e),
{
    let name = layer_tensor_name(layer, t);
    let res = file.get_tensor1(name.as_str());
    res
}

fn read_layer_scalar(file: &TensorFile, layer: usize) -> (res: Result<u32, LoadError>)
    ensures
        res is Ok <==> weight_readable(file.source(), layer as nat, LayerTensor::LayerScalar),
        res matches Ok(x) ==> x == tensor_values(
            file.source(),
            spec_layer_tensor_name(layer as nat, LayerTensor::LayerScalar),
        )[0],
        res matches Err(e) ==> weight_error(file.source(), layer as nat, LayerTensor::LayerScalar, e),
{
    let name = layer_tensor_name(layer, LayerTensor::LayerScalar);
    let res = file.get_scalar(name.as_str());
    res
}


impl<'a> TensorFile<'a> {
    /// Reads every weight of decoder layer `layer`, in the order the fields
    /// are listed; the first weight that cannot be read ends the load.
    pub fn load_layer(&self, layer: usize) -> (res: Result<LayerWeights, LoadError>)
        ensures
            res is Ok <==> layer_readable(self.source(), layer as nat),
            res matches Ok(l) ==> layer_loaded(self.source(), layer as nat, l),
            res matches Err(e) ==> layer_error(self.source(), layer as nat, e),
    {
        let attn_q = match read_matrix(self, layer, LayerTensor::QProj) {
            Ok(x) => x,
            Err(e) => {
                return Err(e);
            },
        };
        let attn_k = match read_matrix(self, layer, LayerTensor::KProj) {
            Ok(x) => x,
            Err(e) => {
                return Err(e);
            },
        };
        let attn_v = match read_matrix(self, layer, LayerTensor::VProj) {
            Ok(x) => x,
            Err(e) => {
                return Err(e);
            },
        };
        let attn_o = match read_matrix(self, layer, LayerTensor::OProj) {
            Ok(x) => x,
            Err(e) => {
                return Err(e);
            },
        };
        let q_norm = match read_gain(self, layer, LayerTensor::QNorm) {
            Ok(x) => x,
            Err(e) => {
                return Err(e);
            },
        };
        let k_norm = match read_gain(self, layer, LayerTensor::KNorm) {
            Ok(x) => x,
            Err(e) => {
                return Err(e);
            },
        };
        let up_proj = match read_matrix(self, layer, LayerTensor::UpProj) {
            Ok(x) => x,
            Err(e) => {
                return Err(e);
            },
        };
        let gate_proj = match read_matrix(self, layer, LayerTensor::GateProj) {
            Ok(x) => x,
            Err(e) => {
                return Err(e);
            },
        };
        let down_proj = match read_matrix(self, layer, LayerTensor::DownProj) {
            Ok(x) => x,
            Err(e) => {
                return Err(e);
            },
        };
        let input_norm = match read_gain(self, layer, LayerTensor::InputNorm) {
            Ok(x) => x,
            Err(e) => {
                return Err(e);
            },
        };
        let post_attn_norm = match read_gain(self, layer, LayerTensor::PostAttentionNorm) {
            Ok(x) => x,
            Err(e) => {
                return Err(e);
            },
        };
        let pre_ffn_norm = match read_gain(self, layer, LayerTensor::PreFeedforwardNorm) {
            Ok(x) => x,
            Err(e) => {
                return Err(e);
            },
        };
        let post_ffn_norm = match read_gain(self, layer, LayerTensor::PostFeedforwardNorm) {
            Ok(x) => x,
            Err(e) => {
                return Err(e);
            },
        };
        let projection = match read_matrix(self, layer, LayerTensor::PerLayerProjection) {
            Ok(x) => x,
            Err(e) => {
                return Err(e);
            },
        };
        let input_gate = match read_matrix(self, layer, LayerTensor::PerLayerInputGate) {
            Ok(x) => x,
            Err(e) => {
                return Err(e);
            },
        };
        let post_norm = match read_gain(self, layer, LayerTensor::PostPerLayerInputNorm) {
            Ok(x) => x,
            Err(e) => {
                return Err(e);
            },
        };
        let scalar = match read_layer_scalar(self, layer) {
            Ok(x) => x,
            Err(e) => {
                return Err(e);
            },
        };
        proof {
            assert forall|t: LayerTensor| #[trigger] weight_readable(self.source(), layer as nat, t) by {
                match t {
                LayerTensor::QProj => {},
                LayerTensor::KProj => {},
                LayerTensor::VProj => {},
                LayerTensor::OProj => {},
                LayerTensor::QNorm => {},
                LayerTensor::KNorm => {},
                LayerTensor::UpProj => {},
                LayerTensor::GateProj => {},
                LayerTensor::DownProj => {},
                LayerTensor::InputNorm => {},
                LayerTensor::PostAttentionNorm => {},
                LayerTensor::PreFeedforwardNorm => {},
                LayerTensor::PostFeedforwardNorm => {},
                LayerTensor::PerLayerProjection => {},
                LayerTensor::PerLayerInputGate => {},
                LayerTensor::PostPerLayerInputNorm => {},
                LayerTensor::LayerScalar => {},
                }
            }
        }
        Ok(LayerWeights {
            attn_q,
            attn_k,
            attn_v,
            attn_o,
            q_norm,
            k_norm,
            up_proj,
            gate_proj,
            down_proj,
            input_norm,
            post_attn_norm,
            pre_ffn_norm,
            post_ffn_norm,
            projection,
            input_gate,
            post_norm,
            scalar,
        })
    }

    /// Reads the whole model: layers `0..num_layers` in order, then the
    /// per-layer table's place, the embedding, the final norm, and the
    /// per-layer projection and its norm; the first weight that cannot be
    /// read ends the load.
    pub fn load_model(&self, num_layers: usize) -> (res: Result<ModelWeights, LoadError>)
        ensures
            res is Ok <==> model_readable(self.source(), num_layers as nat),
            res matches Ok(m) ==> model_loaded(self.source(), num_layers as nat, m),
            res matches Err(e) ==> model_error(self.source(), num_layers as nat, e),
    {
        let mut layers: Vec<LayerWeights> = Vec::with_capacity(num_layers);
        let mut i: usize = 0;
        while i < num_layers
            invariant
                i <= num_layers,
                layers@.len() == i,
                forall|k: int| 0 <= k < i ==> layer_loaded(self.source(), k as nat, #[trigger] layers@[k]),
                forall|k: nat| k < i ==> #[trigger] layer_readable(self.source(), k),
            decreases num_layers - i,
        {
            match self.load_layer(i) {
                Ok(l) => {
                    layers.push(l);
                },
                Err(e) => {
                    proof {
                        assert(i < num_layers && layer_error(self.source(), i as nat, e));
                        assert(!layer_readable(self.source(), i as nat));
                    }
                    return Err(e);
                },
            }
            i = i + 1;
        }
        let (ple_offset, ple_rows, ple_cols) = match self.get_table(
            "model.language_model.embed_tokens_per_layer.weight",
        ) {
            Ok(r) => r,
            Err(e) => {
                return Err(e);
            },
        };
        let embd = match self.get_tensor2("model.language_model.embed_tokens.weight") {
            Ok(m) => m,
            Err(e) => {
                return Err(e);
            },
        };
        let norm_f = match self.get_tensor1("model.language_model.norm.weight") {
            Ok(v) => v,
            Err(e) => {
                return Err(e);
            },
        };
        let ple_model_proj = match self.get_tensor2(
            "model.language_model.per_layer_model_projection.weight",
        ) {
            Ok(m) => m,
            Err(e) => {
                return Err(e);
            },
        };
        let ple_proj_norm = match self.get_tensor1(
            "model.language_model.per_layer_projection_norm.weight",
        ) {
            Ok(v) => v,
            Err(e) => {
                return Err(e);
            },
        };
        Ok(ModelWeights {
            layers,
            embd,
            norm_f,
            ple_model_proj,
            ple_proj_norm,
            ple_offset,
            ple_rows,
            ple_cols,
        })
    }
}

} // verus!
