use vstd::prelude::*;

verus! {

/// The integer and text settings of the language model that the decoder's
/// index logic reads (the floating-point settings are kept by the caller).
#[derive(Clone, Debug)]
pub struct TextConfig {
    pub num_hidden_layers: usize,
    pub hidden_size: usize,
    /// Width of one attention head in a sliding-window layer.
    pub head_dim: usize,
    /// Width of one attention head in a full-attention layer.
    pub global_head_dim: usize,
    pub num_attention_heads: usize,
    pub num_key_value_heads: usize,
    pub intermediate_size: usize,
    pub vocab_size: usize,
    /// `"sliding_attention"` or `"full_attention"`, one entry per layer.
    pub layer_types: Vec<String>,
    pub sliding_window: usize,
    pub num_kv_shared_layers: usize,
    pub hidden_size_per_layer_input: usize,
    pub tie_word_embeddings: bool,
    pub bos_token_id: u32,
    pub eos_token_id: u32,
    pub pad_token_id: u32,
}

/// The model configuration file: its text part.
#[derive(Clone, Debug)]
pub struct Config {
    pub text_config: TextConfig,
}

/// The layer type that marks a sliding-window layer.
pub open spec fn sliding_layer_type() -> Seq<char> {
    "sliding_attention"@
}

impl TextConfig {
    /// Whether layer `layer` attends through a sliding window.
    pub fn layer_is_sliding(&self, layer: usize) -> (sliding: bool)
        requires
            layer < self.layer_types@.len(),
        ensures
            sliding == (self.layer_types@[layer as int]@ == sliding_layer_type()),
    {
        let marker = String::from_str("sliding_attention");
        self.layer_types[layer] == marker
    }

    /// The head width that a layer's rotary tables are built for: the
    /// configured width in sliding layers, twice that in full layers.
    pub fn rope_head_dim(&self, is_sliding: bool) -> (dim: usize)
        requires
            !is_sliding ==> 2 * self.head_dim <= usize::MAX,
        ensures
            dim == if is_sliding { self.head_dim as int } else { 2 * self.head_dim },
    {
        if is_sliding {
            self.head_dim
        } else {
            self.head_dim * 2
        }
    }

    /// The columns `[start, end)` of the query projection that belong to
    /// attention head `head`.
    pub fn head_columns(&self, head: usize) -> (cols: (usize, usize))
        requires
            (head + 1) * self.head_dim <= usize::MAX,
        ensures
            cols.0 == head * self.head_dim,
            cols.1 == head * self.head_dim + self.head_dim,
    {
        proof {
            assert((head + 1) * self.head_dim == head * self.head_dim + self.head_dim)
                by (nonlinear_arith);
        }
        let start: usize = head * self.head_dim;
        (start, start + self.head_dim)
    }
}

/// A layer slides exactly when its configured type is `sliding_attention`.
pub proof fn lemma_sliding_marker(cfg: TextConfig, layer: int)
    requires
        0 <= layer < cfg.layer_types@.len(),
    ensures
        (cfg.layer_types@[layer]@ == sliding_layer_type()) <==> cfg.layer_types@[layer]@
            == "sliding_attention"@,
{
}

/// Different heads read disjoint columns: a lower head ends at or before
/// the start of every higher head.
pub proof fn lemma_heads_disjoint(lower: nat, higher: nat, head_dim: nat)
    requires
        lower < higher,
    ensures
        lower * head_dim + head_dim <= higher * head_dim,
{
    assert(lower * head_dim + head_dim <= higher * head_dim) by (nonlinear_arith)
        requires lower < higher;
}

} // verus!
