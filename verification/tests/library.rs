use gemma_infer::bf16::to_f32_bits;
use gemma_infer::config::{Config, TextConfig};
use gemma_infer::mask::{attention_mask, is_masked};
use gemma_infer::names::{decimal_string, layer_tensor_name, LayerTensor};
use gemma_infer::ple::ple_row_bits;
use gemma_infer::model::LayerWeights;
use gemma_infer::tensors::{LoadError, Reader, TensorFile};

/// Builds the bytes of a safetensors file holding bf16 tensors.
fn checkpoint(tensors: &[(&str, &[usize], &[u8])]) -> Vec<u8> {
    let mut header = String::from("{");
    let mut offset = 0usize;
    for (k, (name, shape, data)) in tensors.iter().enumerate() {
        if k > 0 {
            header.push(',');
        }
        let dims: Vec<String> = shape.iter().map(|d| d.to_string()).collect();
        header.push_str(&format!(
            "\"{}\":{{\"dtype\":\"BF16\",\"shape\":[{}],\"data_offsets\":[{},{}]}}",
            name,
            dims.join(","),
            offset,
            offset + data.len()
        ));
        offset += data.len();
    }
    header.push('}');
    let mut bytes = (header.len() as u64).to_le_bytes().to_vec();
    bytes.extend_from_slice(header.as_bytes());
    for (_, _, data) in tensors {
        bytes.extend_from_slice(data);
    }
    bytes
}

fn sample_config(layer_types: &[&str]) -> TextConfig {
    TextConfig {
        num_hidden_layers: layer_types.len(),
        hidden_size: 1536,
        head_dim: 256,
        global_head_dim: 512,
        num_attention_heads: 8,
        num_key_value_heads: 1,
        intermediate_size: 6144,
        vocab_size: 262144,
        layer_types: layer_types.iter().map(|s| s.to_string()).collect(),
        sliding_window: 512,
        num_kv_shared_layers: 20,
        hidden_size_per_layer_input: 256,
        tie_word_embeddings: true,
        bos_token_id: 2,
        eos_token_id: 1,
        pad_token_id: 0,
    }
}

#[test]
fn bf16_one_widens_to_f32_one() {
    let bits = to_f32_bits(&[0x80, 0x3f]);
    assert_eq!(bits, vec![0x3f80_0000]);
    assert_eq!(f32::from_bits(bits[0]), 1.0f32);
}

#[test]
fn bf16_decoding_keeps_order_and_sign() {
    // -2.0 is 0xc000, 0.5 is 0x3f00 in bf16.
    let bits = to_f32_bits(&[0x00, 0xc0, 0x00, 0x3f]);
    let values: Vec<f32> = bits.iter().map(|b| f32::from_bits(*b)).collect();
    assert_eq!(values, vec![-2.0f32, 0.5f32]);
}

#[test]
fn bf16_trailing_odd_byte_is_ignored() {
    assert_eq!(to_f32_bits(&[0x80, 0x3f, 0x12]), vec![0x3f80_0000]);
    assert!(to_f32_bits(&[0x7f]).is_empty());
    assert!(to_f32_bits(&[]).is_empty());
}

#[test]
fn bf16_widening_is_lossless() {
    let bytes: Vec<u8> = (0u8..=255).collect();
    let bits = to_f32_bits(&bytes);
    assert_eq!(bits.len(), 128);
    for (k, w) in bits.iter().enumerate() {
        assert_eq!(w % 65536, 0);
        assert_eq!(((w >> 16) & 0xff) as u8, bytes[2 * k]);
        assert_eq!((w >> 24) as u8, bytes[2 * k + 1]);
    }
}

#[test]
fn full_attention_mask_is_causal() {
    let mask = attention_mask(4, false, 1);
    for i in 0..4 {
        for j in 0..4 {
            assert_eq!(mask[i][j], j > i, "entry {} {}", i, j);
        }
    }
}

#[test]
fn sliding_mask_hides_old_keys() {
    let mask = attention_mask(5, true, 2);
    assert_eq!(mask[4], vec![true, true, false, false, false]);
    assert_eq!(mask[2], vec![false, false, false, true, true]);
    assert!(is_masked(3, 0, true, 2));
    assert!(!is_masked(3, 1, true, 2));
    assert!(!is_masked(3, 0, false, 2));
}

#[test]
fn mask_never_hides_the_diagonal() {
    for window in 0..3 {
        for sliding in [false, true] {
            let mask = attention_mask(6, sliding, window);
            for i in 0..6 {
                assert!(!mask[i][i]);
            }
        }
    }
}

#[test]
fn empty_mask_has_no_rows() {
    assert!(attention_mask(0, true, 4).is_empty());
}

#[test]
fn decimal_matches_display() {
    for n in [0usize, 7, 9, 10, 34, 35, 100, 1234567, usize::MAX] {
        assert_eq!(decimal_string(n), n.to_string());
    }
}

#[test]
fn layer_tensor_names_follow_the_checkpoint_layout() {
    assert_eq!(
        layer_tensor_name(0, LayerTensor::QProj),
        "model.language_model.layers.0.self_attn.q_proj.weight"
    );
    assert_eq!(
        layer_tensor_name(34, LayerTensor::LayerScalar),
        "model.language_model.layers.34.layer_scalar"
    );
    assert_eq!(
        layer_tensor_name(12, LayerTensor::PostPerLayerInputNorm),
        "model.language_model.layers.12.post_per_layer_input_norm.weight"
    );
    assert_eq!(
        layer_tensor_name(5, LayerTensor::PreFeedforwardNorm),
        "model.language_model.layers.5.pre_feedforward_layernorm.weight"
    );
}

#[test]
fn layer_tensor_names_are_distinct() {
    let kinds = [
        LayerTensor::QProj,
        LayerTensor::KProj,
        LayerTensor::VProj,
        LayerTensor::OProj,
        LayerTensor::QNorm,
        LayerTensor::KNorm,
        LayerTensor::UpProj,
        LayerTensor::GateProj,
        LayerTensor::DownProj,
        LayerTensor::InputNorm,
        LayerTensor::PostAttentionNorm,
        LayerTensor::PreFeedforwardNorm,
        LayerTensor::PostFeedforwardNorm,
        LayerTensor::PerLayerProjection,
        LayerTensor::PerLayerInputGate,
        LayerTensor::PostPerLayerInputNorm,
        LayerTensor::LayerScalar,
    ];
    let mut names = std::collections::HashSet::new();
    for layer in 0..35 {
        for kind in kinds {
            assert!(names.insert(layer_tensor_name(layer, kind)));
        }
    }
    assert_eq!(names.len(), 35 * kinds.len());
}

#[test]
fn layer_types_select_sliding_layers() {
    let cfg = sample_config(&["sliding_attention", "full_attention", "sliding"]);
    assert!(cfg.layer_is_sliding(0));
    assert!(!cfg.layer_is_sliding(1));
    assert!(!cfg.layer_is_sliding(2));
}

#[test]
fn rope_width_doubles_in_full_layers() {
    let cfg = sample_config(&["sliding_attention"]);
    assert_eq!(cfg.rope_head_dim(true), 256);
    assert_eq!(cfg.rope_head_dim(false), 512);
    let mut wide = sample_config(&["sliding_attention"]);
    wide.head_dim = usize::MAX;
    assert_eq!(wide.rope_head_dim(true), usize::MAX);
}

#[test]
fn heads_take_consecutive_columns() {
    let cfg = sample_config(&["sliding_attention"]);
    assert_eq!(cfg.head_columns(0), (0, 256));
    assert_eq!(cfg.head_columns(3), (768, 1024));
    let config = Config { text_config: cfg };
    assert_eq!(config.text_config.head_columns(7).1, 8 * 256);
}

#[test]
fn checkpoint_reads_vectors_matrices_and_scalars() {
    let bytes = checkpoint(&[
        ("norm", &[2], &[0x80, 0x3f, 0x00, 0x40]),
        ("proj", &[2, 3], &[0x80, 0x3f, 0x00, 0x40, 0x40, 0x40, 0x80, 0x40, 0xa0, 0x40, 0xc0, 0x40]),
        ("scale", &[1], &[0x00, 0xbf]),
    ]);
    let file = TensorFile::open(&bytes).unwrap();
    let norm = file.get_tensor1("norm").unwrap();
    assert_eq!(norm, vec![0x3f80_0000, 0x4000_0000]);
    let proj = file.get_tensor2("proj").unwrap();
    assert_eq!((proj.rows, proj.cols), (2, 3));
    let values: Vec<f32> = proj.bits.iter().map(|b| f32::from_bits(*b)).collect();
    assert_eq!(values, vec![1.0, 2.0, 3.0, 4.0, 5.0, 6.0]);
    assert_eq!(f32::from_bits(file.get_scalar("scale").unwrap()), -0.5);
}

#[test]
fn checkpoint_reports_missing_tensors() {
    let bytes = checkpoint(&[("norm", &[1], &[0x80, 0x3f])]);
    let file = TensorFile::open(&bytes).unwrap();
    assert!(matches!(file.get_tensor1("other"), Err(LoadError::TensorNotFound(Reader::Tensor1, n)) if n == "other"));
    assert!(matches!(file.get_tensor2("other"), Err(LoadError::TensorNotFound(Reader::Tensor2, _))));
    assert!(matches!(file.get_scalar("other"), Err(LoadError::TensorNotFound(Reader::Scalar, _))));
    assert!(matches!(file.get_table("other"), Err(LoadError::TensorNotFound(Reader::Table, _))));
}

#[test]
fn checkpoint_rejects_bad_shapes() {
    let bytes = checkpoint(&[
        ("vec", &[2], &[0x80, 0x3f, 0x00, 0x40]),
        ("cube", &[1, 2, 2], &[0, 0x3f, 0, 0x3f, 0, 0x3f, 0, 0x3f]),
        ("none", &[0], &[]),
    ]);
    let file = TensorFile::open(&bytes).unwrap();
    assert!(matches!(file.get_tensor2("vec"), Err(LoadError::NotAMatrix(n)) if n == "vec"));
    assert!(matches!(file.get_tensor2("cube"), Err(LoadError::ShapeMismatch(n)) if n == "cube"));
    assert!(matches!(file.get_scalar("none"), Err(LoadError::Empty(n)) if n == "none"));
    assert!(matches!(file.get_table("vec"), Err(LoadError::NotAMatrix(_))));
    assert_eq!(file.get_tensor1("none").unwrap(), Vec::<u32>::new());
}

#[test]
fn checkpoint_rejects_garbage() {
    assert!(matches!(TensorFile::open(&[1, 2, 3]), Err(LoadError::Parse)));
    let mut bytes = checkpoint(&[("norm", &[1], &[0x80, 0x3f])]);
    bytes.push(0);
    assert!(matches!(TensorFile::open(&bytes), Err(LoadError::Parse)));
}

#[test]
fn checkpoint_table_gives_dimensions_and_bytes() {
    let data: Vec<u8> = (0u8..24).collect();
    let bytes = checkpoint(&[("head", &[1], &[0, 0]), ("table", &[3, 4], &data)]);
    let file = TensorFile::open(&bytes).unwrap();
    let (offset, rows, cols) = file.get_table("table").unwrap();
    assert_eq!((rows, cols), (3, 4));
    assert_eq!(&bytes[offset..offset + data.len()], &data[..]);
    assert_eq!(offset + data.len(), bytes.len());
}

#[test]
fn ple_rows_are_read_per_token() {
    // Two layers of two dimensions: four bf16 numbers (eight bytes) a row,
    // after a three-byte preamble.
    let mut buffer = vec![9u8, 9, 9];
    for token in 0u8..3 {
        for k in 0u8..4 {
            buffer.push(k);
            buffer.push(token);
        }
    }
    let row = ple_row_bits(&buffer, 3, 2, 2, 1).unwrap();
    assert_eq!(row, vec![0x0100_0000, 0x0101_0000, 0x0102_0000, 0x0103_0000]);
    let last = ple_row_bits(&buffer, 3, 2, 2, 2).unwrap();
    assert_eq!(last[3], 0x0203_0000);
    assert!(ple_row_bits(&buffer, 3, 2, 2, 3).is_none());
    assert!(ple_row_bits(&buffer, 4, 2, 2, 2).is_none());
    assert!(ple_row_bits(&buffer, 0, usize::MAX, 2, 0).is_none());
    assert_eq!(ple_row_bits(&buffer, 0, 0, 5, 7).unwrap(), Vec::<u32>::new());
}

const LAYER_KINDS: [LayerTensor; 17] = [
    LayerTensor::QProj,
    LayerTensor::KProj,
    LayerTensor::VProj,
    LayerTensor::OProj,
    LayerTensor::QNorm,
    LayerTensor::KNorm,
    LayerTensor::UpProj,
    LayerTensor::GateProj,
    LayerTensor::DownProj,
    LayerTensor::InputNorm,
    LayerTensor::PostAttentionNorm,
    LayerTensor::PreFeedforwardNorm,
    LayerTensor::PostFeedforwardNorm,
    LayerTensor::PerLayerProjection,
    LayerTensor::PerLayerInputGate,
    LayerTensor::PostPerLayerInputNorm,
    LayerTensor::LayerScalar,
];

fn is_gain(t: LayerTensor) -> bool {
    matches!(
        t,
        LayerTensor::QNorm
            | LayerTensor::KNorm
            | LayerTensor::InputNorm
            | LayerTensor::PostAttentionNorm
            | LayerTensor::PreFeedforwardNorm
            | LayerTensor::PostFeedforwardNorm
            | LayerTensor::PostPerLayerInputNorm
    )
}

/// A model whose every tensor holds numbers that say which tensor it is:
/// matrices are 1 by 2, gains have two numbers, scalars one.
fn tagged_model(num_layers: usize, skip: Option<String>) -> Vec<u8> {
    let mut owned: Vec<(String, Vec<usize>, Vec<u8>)> = Vec::new();
    for layer in 0..num_layers {
        for (k, t) in LAYER_KINDS.iter().enumerate() {
            let tag = (layer * 17 + k) as u8;
            let (shape, data) = if is_gain(*t) {
                (vec![2], vec![tag, 0, tag, 1])
            } else if *t == LayerTensor::LayerScalar {
                (vec![1], vec![tag, 2])
            } else {
                (vec![1, 2], vec![tag, 3, tag, 4])
            };
            owned.push((layer_tensor_name(layer, *t), shape, data));
        }
    }
    owned.push(("model.language_model.embed_tokens.weight".into(), vec![1, 2], vec![200, 5, 200, 6]));
    owned.push(("model.language_model.norm.weight".into(), vec![1], vec![201, 7]));
    owned.push((
        "model.language_model.per_layer_model_projection.weight".into(),
        vec![2, 1],
        vec![202, 8, 202, 9],
    ));
    owned.push(("model.language_model.per_layer_projection_norm.weight".into(), vec![1], vec![203, 10]));
    owned.push((
        "model.language_model.embed_tokens_per_layer.weight".into(),
        vec![2, 2],
        vec![1, 2, 3, 4, 5, 6, 7, 8],
    ));
    let kept: Vec<(&str, &[usize], &[u8])> = owned
        .iter()
        .filter(|(n, _, _)| Some(n) != skip.as_ref())
        .map(|(n, s, d)| (n.as_str(), s.as_slice(), d.as_slice()))
        .collect();
    checkpoint(&kept)
}

fn word(lo: u8, hi: u8) -> u32 {
    (u32::from(hi) * 256 + u32::from(lo)) * 65536
}

fn check_layer(l: &LayerWeights, layer: usize) {
    let tag = |k: usize| (layer * 17 + k) as u8;
    let matrices = [
        (&l.attn_q, 0),
        (&l.attn_k, 1),
        (&l.attn_v, 2),
        (&l.attn_o, 3),
        (&l.up_proj, 6),
        (&l.gate_proj, 7),
        (&l.down_proj, 8),
        (&l.projection, 13),
        (&l.input_gate, 14),
    ];
    for (m, k) in matrices {
        assert_eq!((m.rows, m.cols), (1, 2));
        assert_eq!(m.bits, vec![word(tag(k), 3), word(tag(k), 4)], "matrix {}", k);
    }
    let gains = [
        (&l.q_norm, 4),
        (&l.k_norm, 5),
        (&l.input_norm, 9),
        (&l.post_attn_norm, 10),
        (&l.pre_ffn_norm, 11),
        (&l.post_ffn_norm, 12),
        (&l.post_norm, 15),
    ];
    for (g, k) in gains {
        assert_eq!(*g, vec![word(tag(k), 0), word(tag(k), 1)], "gain {}", k);
    }
    assert_eq!(l.scalar, word(tag(16), 2));
}

#[test]
fn load_layer_fills_each_field_with_its_weight() {
    let bytes = tagged_model(2, None);
    let file = TensorFile::open(&bytes).unwrap();
    check_layer(&file.load_layer(0).unwrap(), 0);
    check_layer(&file.load_layer(1).unwrap(), 1);
    assert!(matches!(file.load_layer(2), Err(LoadError::TensorNotFound(Reader::Tensor2, n)) if n == layer_tensor_name(2, LayerTensor::QProj)));
}

#[test]
fn load_layer_reports_the_missing_weight() {
    let missing = layer_tensor_name(0, LayerTensor::PreFeedforwardNorm);
    let bytes = tagged_model(1, Some(missing.clone()));
    let file = TensorFile::open(&bytes).unwrap();
    assert!(matches!(file.load_layer(0), Err(LoadError::TensorNotFound(Reader::Tensor1, n)) if n == missing));
}

#[test]
fn load_model_fills_every_field() {
    let bytes = tagged_model(2, None);
    let file = TensorFile::open(&bytes).unwrap();
    let m = file.load_model(2).unwrap();
    assert_eq!(m.layers.len(), 2);
    check_layer(&m.layers[0], 0);
    check_layer(&m.layers[1], 1);
    assert_eq!((m.embd.rows, m.embd.cols), (1, 2));
    assert_eq!(m.embd.bits, vec![word(200, 5), word(200, 6)]);
    assert_eq!(m.norm_f, vec![word(201, 7)]);
    assert_eq!((m.ple_model_proj.rows, m.ple_model_proj.cols), (2, 1));
    assert_eq!(m.ple_model_proj.bits, vec![word(202, 8), word(202, 9)]);
    assert_eq!(m.ple_proj_norm, vec![word(203, 10)]);
    assert_eq!((m.ple_rows, m.ple_cols), (2, 2));
    assert_eq!(&bytes[m.ple_offset..m.ple_offset + 8], &[1, 2, 3, 4, 5, 6, 7, 8]);
    assert_eq!(bytes.len() - m.ple_offset, 2 * m.ple_rows * m.ple_cols);
    // Token 1's row of a one-layer, one-dimension table is its second bf16 number.
    assert_eq!(ple_row_bits(&bytes, m.ple_offset, 1, 1, 1).unwrap(), vec![word(3, 4)]);
}

#[test]
fn load_model_reports_missing_globals() {
    let table = "model.language_model.embed_tokens_per_layer.weight".to_string();
    let bytes = tagged_model(1, Some(table.clone()));
    let file = TensorFile::open(&bytes).unwrap();
    assert!(matches!(file.load_model(1), Err(LoadError::TensorNotFound(Reader::Table, n)) if n == table));
    let norm = "model.language_model.norm.weight".to_string();
    let bytes = tagged_model(1, Some(norm.clone()));
    let file = TensorFile::open(&bytes).unwrap();
    assert!(matches!(file.load_model(1), Err(LoadError::TensorNotFound(Reader::Tensor1, n)) if n == norm));
    let bytes = tagged_model(1, None);
    let file = TensorFile::open(&bytes).unwrap();
    assert!(matches!(file.load_model(2), Err(LoadError::TensorNotFound(Reader::Tensor2, n)) if n == layer_tensor_name(1, LayerTensor::QProj)));
}

#[test]
fn load_layer_reports_the_first_unreadable_weight() {
    // Both the key projection and the final scalar are missing: the key
    // projection is read first.
    let bytes = tagged_model(1, Some(layer_tensor_name(0, LayerTensor::KProj)));
    let file = TensorFile::open(&bytes).unwrap();
    assert!(matches!(file.load_layer(0), Err(LoadError::TensorNotFound(Reader::Tensor2, n)) if n == layer_tensor_name(0, LayerTensor::KProj)));
    let bytes = tagged_model(1, Some(layer_tensor_name(0, LayerTensor::LayerScalar)));
    let file = TensorFile::open(&bytes).unwrap();
    assert!(matches!(file.load_layer(0), Err(LoadError::TensorNotFound(Reader::Scalar, _))));
}

#[test]
fn checkpoint_whose_data_would_end_past_usize_is_refused() {
    // Eight byte tensors of 2^61 - 1 elements each, laid end to end: their
    // data would end at usize::MAX - 7, so with the header the total length
    // overflows.
    let size: u64 = (1u64 << 61) - 1;
    let mut header = String::from("{");
    for k in 0..8u64 {
        if k > 0 {
            header.push(',');
        }
        header.push_str(&format!(
            "\"t{}\":{{\"dtype\":\"U8\",\"shape\":[{}],\"data_offsets\":[{},{}]}}",
            k,
            size,
            k * size,
            (k + 1) * size
        ));
    }
    header.push('}');
    let mut bytes = (header.len() as u64).to_le_bytes().to_vec();
    bytes.extend_from_slice(header.as_bytes());
    assert!(matches!(TensorFile::open(&bytes), Err(LoadError::Parse)));
}
