use vstd::prelude::*;

verus! {

/// The character of a decimal digit `d < 10`.
pub open spec fn digit_char(d: int) -> char {
    (48 + d) as char
}

/// The decimal numeral of `n`, most significant digit first, with no
/// leading zero (the text that `{}` formatting gives).
pub open spec fn decimal(n: nat) -> Seq<char>
    decreases n,
{
    if n < 10 {
        seq![digit_char(n as int)]
    } else {
        decimal(n / 10).push(digit_char((n % 10) as int))
    }
}

proof fn lemma_digit_char_value(d: int)
    requires
        0 <= d < 10,
    ensures
        digit_char(d) as int == 48 + d,
{
}

/// Every character of a numeral is a digit, and a numeral is never empty.
pub proof fn lemma_decimal_digits(n: nat)
    ensures
        decimal(n).len() >= 1,
        n >= 10 ==> decimal(n).len() >= 2,
        forall|k: int|
            0 <= k < decimal(n).len() ==> 48 <= (#[trigger] decimal(n)[k]) as int <= 57,
    decreases n,
{
    if n >= 10 {
        lemma_decimal_digits(n / 10);
    }
}

/// The number that a string of decimal digits denotes, most significant
/// digit first.
pub open spec fn numeral_value(digits: Seq<char>) -> int
    decreases digits.len(),
{
    if digits.len() == 0 {
        0
    } else {
        numeral_value(digits.drop_last()) * 10 + (digits.last() as int - 48)
    }
}

/// The numeral of `n` denotes `n` and starts with a zero only when it is
/// the numeral of zero: it is the standard decimal numeral of `n`.
pub proof fn lemma_decimal_denotes(n: nat)
    ensures
        numeral_value(decimal(n)) == n,
        decimal(n)[0] == '0' ==> n == 0,
    decreases n,
{
    lemma_decimal_digits(n);
    if n < 10 {
        lemma_digit_char_value(n as int);
        let d = decimal(n);
        assert(d.drop_last().len() == 0);
        assert(numeral_value(d.drop_last()) == 0);
        assert(d.last() == digit_char(n as int));
        assert(numeral_value(d) == numeral_value(d.drop_last()) * 10 + (d.last() as int - 48));
    } else {
        lemma_decimal_denotes(n / 10);
        lemma_digit_char_value((n % 10) as int);
        let d = decimal(n);
        assert(d.drop_last() =~= decimal(n / 10));
        assert(d.last() == digit_char((n % 10) as int));
        assert(numeral_value(d) == numeral_value(d.drop_last()) * 10 + (d.last() as int - 48));
        assert(numeral_value(d) == (n / 10) * 10 + n % 10);
        assert(d[0] == decimal(n / 10)[0]);
        lemma_decimal_digits(n / 10);
        if d[0] == '0' {
            lemma_digit_char_value(0);
        }
    }
}

/// Distinct numbers have distinct numerals.
pub proof fn lemma_decimal_injective(a: nat, b: nat)
    requires
        decimal(a) == decimal(b),
    ensures
        a == b,
    decreases a,
{
    lemma_decimal_digits(a);
    lemma_decimal_digits(b);
    if a < 10 && b < 10 {
        assert(decimal(a)[0] == digit_char(a as int));
        assert(decimal(b)[0] == digit_char(b as int));
        lemma_digit_char_value(a as int);
        lemma_digit_char_value(b as int);
    } else if a >= 10 && b >= 10 {
        let da = decimal(a);
        let db = decimal(b);
        assert(da.last() == db.last());
        assert(da.drop_last() =~= decimal(a / 10));
        assert(db.drop_last() =~= decimal(b / 10));
        lemma_decimal_injective(a / 10, b / 10);
        lemma_digit_char_value((a % 10) as int);
        lemma_digit_char_value((b % 10) as int);
        assert(a % 10 == b % 10);
    } else {
        assert(decimal(a).len() != decimal(b).len());
    }
}

fn digit_str(d: usize) -> (s: &'static str)
    requires
        d < 10,
    ensures
        s@ == seq![digit_char(d as int)],
{
    proof {
        reveal_strlit("0");
        reveal_strlit("1");
        reveal_strlit("2");
        reveal_strlit("3");
        reveal_strlit("4");
        reveal_strlit("5");
        reveal_strlit("6");
        reveal_strlit("7");
        reveal_strlit("8");
        reveal_strlit("9");
    }
    match d {
        0 => "0",
        1 => "1",
        2 => "2",
        3 => "3",
        4 => "4",
        5 => "5",
        6 => "6",
        7 => "7",
        8 => "8",
        _ => "9",
    }
}

fn push_decimal(s: &mut String, n: usize)
    ensures
        final(s)@ == old(s)@ + decimal(n as nat),
    decreases n,
{
    if n >= 10 {
        push_decimal(s, n / 10);
    }
    s.append(digit_str(n % 10));
    proof {
        if n >= 10 {
            assert(old(s)@ + decimal(n as nat) =~= old(s)@ + decimal((n / 10) as nat) + seq![
                digit_char((n % 10) as int),
            ]);
        }
    }
}

/// The decimal numeral of `n` as a string.
pub fn decimal_string(n: usize) -> (s: String)
    ensures
        s@ == decimal(n as nat),
{
    let mut s = String::new();
    push_decimal(&mut s, n);
    assert(s@ =~= decimal(n as nat));
    s
}

/// The weights that every decoder layer stores under its own name.
#[derive(Clone, Copy, Debug, PartialEq, Eq, Structural)]
pub enum LayerTensor {
    QProj,
    KProj,
    VProj,
    OProj,
    QNorm,
    KNorm,
    UpProj,
    GateProj,
    DownProj,
    InputNorm,
    PostAttentionNorm,
    PreFeedforwardNorm,
    PostFeedforwardNorm,
    PerLayerProjection,
    PerLayerInputGate,
    PostPerLayerInputNorm,
    LayerScalar,
}

/// The part of a layer weight's name that follows the layer number.
pub open spec fn spec_suffix(t: LayerTensor) -> Seq<char> {
    match t {
        LayerTensor::QProj => "self_attn.q_proj.weight"@,
        LayerTensor::KProj => "self_attn.k_proj.weight"@,
        LayerTensor::VProj => "self_attn.v_proj.weight"@,
        LayerTensor::OProj => "self_attn.o_proj.weight"@,
        LayerTensor::QNorm => "self_attn.q_norm.weight"@,
        LayerTensor::KNorm => "self_attn.k_norm.weight"@,
        LayerTensor::UpProj => "mlp.up_proj.weight"@,
        LayerTensor::GateProj => "mlp.gate_proj.weight"@,
        LayerTensor::DownProj => "mlp.down_proj.weight"@,
        LayerTensor::InputNorm => "input_layernorm.weight"@,
        LayerTensor::PostAttentionNorm => "post_attention_layernorm.weight"@,
        LayerTensor::PreFeedforwardNorm => "pre_feedforward_layernorm.weight"@,
        LayerTensor::PostFeedforwardNorm => "post_feedforward_layernorm.weight"@,
        LayerTensor::PerLayerProjection => "per_layer_projection.weight"@,
        LayerTensor::PerLayerInputGate => "per_layer_input_gate.weight"@,
        LayerTensor::PostPerLayerInputNorm => "post_per_layer_input_norm.weight"@,
        LayerTensor::LayerScalar => "layer_scalar"@,
    }
}

/// What every layer weight's name starts with.
pub open spec fn layers_prefix() -> Seq<char> {
    "model.language_model.layers."@
}

/// The full name of weight `t` of layer `layer` in the checkpoint.
pub open spec fn spec_layer_tensor_name(layer: nat, t: LayerTensor) -> Seq<char> {
    layers_prefix() + decimal(layer) + seq!['.'] + spec_suffix(t)
}

impl LayerTensor {
    /// The name suffix of this weight.
    pub fn suffix(&self) -> (s: &'static str)
        ensures
            s@ == spec_suffix(*self),
    {
        match self {
            LayerTensor::QProj => "self_attn.q_proj.weight",
            LayerTensor::KProj => "self_attn.k_proj.weight",
            LayerTensor::VProj => "self_attn.v_proj.weight",
            LayerTensor::OProj => "self_attn.o_proj.weight",
            LayerTensor::QNorm => "self_attn.q_norm.weight",
            LayerTensor::KNorm => "self_attn.k_norm.weight",
            LayerTensor::UpProj => "mlp.up_proj.weight",
            LayerTensor::GateProj => "mlp.gate_proj.weight",
            LayerTensor::DownProj => "mlp.down_proj.weight",
            LayerTensor::InputNorm => "input_layernorm.weight",
            LayerTensor::PostAttentionNorm => "post_attention_layernorm.weight",
            LayerTensor::PreFeedforwardNorm => "pre_feedforward_layernorm.weight",
            LayerTensor::PostFeedforwardNorm => "post_feedforward_layernorm.weight",
            LayerTensor::PerLayerProjection => "per_layer_projection.weight",
            LayerTensor::PerLayerInputGate => "per_layer_input_gate.weight",
            LayerTensor::PostPerLayerInputNorm => "post_per_layer_input_norm.weight",
            LayerTensor::LayerScalar => "layer_scalar",
        }
    }
}

/// The name under which the checkpoint stores weight `t` of layer `layer`.
pub fn layer_tensor_name(layer: usize, t: LayerTensor) -> (name: String)
    ensures
        name@ == spec_layer_tensor_name(layer as nat, t),
{
    let mut name = String::from_str("model.language_model.layers.");
    push_decimal(&mut name, layer);
    name.append(".");
    name.append(t.suffix());
    proof {
        reveal_strlit(".");
        assert(name@ =~= spec_layer_tensor_name(layer as nat, t));
    }
    name
}

spec fn suffix_signature(s: Seq<char>) -> (nat, char, char, char, char) {
    (s.len(), s[1], s[4], s[10], if s.len() > 12 { s[12] } else { ' ' })
}

spec fn expected_signature(t: LayerTensor) -> (nat, char, char, char, char) {
    match t {
        LayerTensor::QProj => (23, 'e', '_', 'q', 'p'),
        LayerTensor::KProj => (23, 'e', '_', 'k', 'p'),
        LayerTensor::VProj => (23, 'e', '_', 'v', 'p'),
        LayerTensor::OProj => (23, 'e', '_', 'o', 'p'),
        LayerTensor::QNorm => (23, 'e', '_', 'q', 'n'),
        LayerTensor::KNorm => (23, 'e', '_', 'k', 'n'),
        LayerTensor::UpProj => (18, 'l', 'u', 'j', 'w'),
        LayerTensor::GateProj => (20, 'l', 'g', 'r', 'j'),
        LayerTensor::DownProj => (20, 'l', 'd', 'r', 'j'),
        LayerTensor::InputNorm => (22, 'n', 't', 'r', 'o'),
        LayerTensor::PostAttentionNorm => (31, 'o', '_', 't', 'o'),
        LayerTensor::PreFeedforwardNorm => (32, 'r', 'f', 'r', 'a'),
        LayerTensor::PostFeedforwardNorm => (33, 'o', '_', 'o', 'w'),
        LayerTensor::PerLayerProjection => (27, 'e', 'l', 'p', 'o'),
        LayerTensor::PerLayerInputGate => (27, 'e', 'l', 'i', 'p'),
        LayerTensor::PostPerLayerInputNorm => (32, 'o', '_', 'a', 'e'),
        LayerTensor::LayerScalar => (12, 'a', 'r', 'a', ' '),
    }
}

proof fn lemma_suffix_signature(t: LayerTensor)
    ensures
        suffix_signature(spec_suffix(t)) == expected_signature(t),
{
    reveal_strlit("self_attn.q_proj.weight");
    reveal_strlit("self_attn.k_proj.weight");
    reveal_strlit("self_attn.v_proj.weight");
    reveal_strlit("self_attn.o_proj.weight");
    reveal_strlit("self_attn.q_norm.weight");
    reveal_strlit("self_attn.k_norm.weight");
    reveal_strlit("mlp.up_proj.weight");
    reveal_strlit("mlp.gate_proj.weight");
    reveal_strlit("mlp.down_proj.weight");
    reveal_strlit("input_layernorm.weight");
    reveal_strlit("post_attention_layernorm.weight");
    reveal_strlit("pre_feedforward_layernorm.weight");
    reveal_strlit("post_feedforward_layernorm.weight");
    reveal_strlit("per_layer_projection.weight");
    reveal_strlit("per_layer_input_gate.weight");
    reveal_strlit("post_per_layer_input_norm.weight");
    reveal_strlit("layer_scalar");
}

/// Different weights of a layer have different name suffixes.
pub proof fn lemma_suffix_injective(ta: LayerTensor, tb: LayerTensor)
    requires
        spec_suffix(ta) == spec_suffix(tb),
    ensures
        ta == tb,
{
    lemma_suffix_signature(ta);
    lemma_suffix_signature(tb);
}

/// Weights of different layers never share a name, whatever they are.
pub proof fn lemma_layer_names_distinct(a: nat, b: nat, ta: LayerTensor, tb: LayerTensor)
    requires
        a != b,
    ensures
        spec_layer_tensor_name(a, ta) != spec_layer_tensor_name(b, tb),
{
    let p = layers_prefix();
    let da = decimal(a);
    let db = decimal(b);
    let na = spec_layer_tensor_name(a, ta);
    let nb = spec_layer_tensor_name(b, tb);
    lemma_decimal_digits(a);
    lemma_decimal_digits(b);
    if na == nb {
        if da.len() == db.len() {
            assert(da =~= na.subrange(p.len() as int, (p.len() + da.len()) as int));
            assert(db =~= nb.subrange(p.len() as int, (p.len() + db.len()) as int));
            lemma_decimal_injective(a, b);
        } else if da.len() < db.len() {
            assert(na[(p.len() + da.len()) as int] == '.');
            assert(nb[(p.len() + da.len()) as int] == db[da.len() as int]);
        } else {
            assert(nb[(p.len() + db.len()) as int] == '.');
            assert(na[(p.len() + db.len()) as int] == da[db.len() as int]);
        }
    }
}

/// No two weights of the model's layers share a name: the name determines
/// both the layer and the weight.
pub proof fn lemma_layer_names_injective(a: nat, b: nat, ta: LayerTensor, tb: LayerTensor)
    requires
        spec_layer_tensor_name(a, ta) == spec_layer_tensor_name(b, tb),
    ensures
        a == b,
        ta == tb,
{
    if a != b {
        lemma_layer_names_distinct(a, b, ta, tb);
    } else {
        let k = layers_prefix().len() + decimal(a).len() + 1;
        let na = spec_layer_tensor_name(a, ta);
        let nb = spec_layer_tensor_name(b, tb);
        assert(spec_suffix(ta) =~= na.subrange(k as int, na.len() as int));
        assert(spec_suffix(tb) =~= nb.subrange(k as int, nb.len() as int));
        lemma_suffix_injective(ta, tb);
    }
}

/// Every layer weight is looked up under the checkpoint's own name for it:
/// `model.language_model.layers.`, the layer number, a dot, and the weight's
/// path within the layer.
pub proof fn lemma_layer_tensor_names_are_checkpoint_names(layer: nat)
    ensures
        spec_layer_tensor_name(layer, LayerTensor::QProj) == "model.language_model.layers."@ + decimal(
            layer,
        ) + ".self_attn.q_proj.weight"@,
        spec_layer_tensor_name(layer, LayerTensor::KProj) == "model.language_model.layers."@ + decimal(
            layer,
        ) + ".self_attn.k_proj.weight"@,
        spec_layer_tensor_name(layer, LayerTensor::VProj) == "model.language_model.layers."@ + decimal(
            layer,
        ) + ".self_attn.v_proj.weight"@,
        spec_layer_tensor_name(layer, LayerTensor::OProj) == "model.language_model.layers."@ + decimal(
            layer,
        ) + ".self_attn.o_proj.weight"@,
        spec_layer_tensor_name(layer, LayerTensor::QNorm) == "model.language_model.layers."@ + decimal(
            layer,
        ) + ".self_attn.q_norm.weight"@,
        spec_layer_tensor_name(layer, LayerTensor::KNorm) == "model.language_model.layers."@ + decimal(
            layer,
        ) + ".self_attn.k_norm.weight"@,
        spec_layer_tensor_name(layer, LayerTensor::UpProj) == "model.language_model.layers."@ + decimal(
            layer,
        ) + ".mlp.up_proj.weight"@,
        spec_layer_tensor_name(layer, LayerTensor::GateProj) == "model.language_model.layers."@ + decimal(
            layer,
        ) + ".mlp.gate_proj.weight"@,
        spec_layer_tensor_name(layer, LayerTensor::DownProj) == "model.language_model.layers."@ + decimal(
            layer,
        ) + ".mlp.down_proj.weight"@,
        spec_layer_tensor_name(layer, LayerTensor::InputNorm) == "model.language_model.layers."@ + decimal(
            layer,
        ) + ".input_layernorm.weight"@,
        spec_layer_tensor_name(layer, LayerTensor::PostAttentionNorm) == "model.language_model.layers."@ + decimal(
            layer,
        ) + ".post_attention_layernorm.weight"@,
        spec_layer_tensor_name(layer, LayerTensor::PreFeedforwardNorm) == "model.language_model.layers."@ + decimal(
            layer,
        ) + ".pre_feedforward_layernorm.weight"@,
        spec_layer_tensor_name(layer, LayerTensor::PostFeedforwardNorm) == "model.language_model.layers."@ + decimal(
            layer,
        ) + ".post_feedforward_layernorm.weight"@,
        spec_layer_tensor_name(layer, LayerTensor::PerLayerProjection) == "model.language_model.layers."@ + decimal(
            layer,
        ) + ".per_layer_projection.weight"@,
        spec_layer_tensor_name(layer, LayerTensor::PerLayerInputGate) == "model.language_model.layers."@ + decimal(
            layer,
        ) + ".per_layer_input_gate.weight"@,
        spec_layer_tensor_name(layer, LayerTensor::PostPerLayerInputNorm) == "model.language_model.layers."@ + decimal(
            layer,
        ) + ".post_per_layer_input_norm.weight"@,
        spec_layer_tensor_name(layer, LayerTensor::LayerScalar) == "model.language_model.layers."@ + decimal(
            layer,
        ) + ".layer_scalar"@,
{
    reveal_strlit("model.language_model.layers.");
    reveal_strlit("self_attn.q_proj.weight");
    reveal_strlit(".self_attn.q_proj.weight");
    reveal_strlit("self_attn.k_proj.weight");
    reveal_strlit(".self_attn.k_proj.weight");
    reveal_strlit("self_attn.v_proj.weight");
    reveal_strlit(".self_attn.v_proj.weight");
    reveal_strlit("self_attn.o_proj.weight");
    reveal_strlit(".self_attn.o_proj.weight");
    reveal_strlit("self_attn.q_norm.weight");
    reveal_strlit(".self_attn.q_norm.weight");
    reveal_strlit("self_attn.k_norm.weight");
    reveal_strlit(".self_attn.k_norm.weight");
    reveal_strlit("mlp.up_proj.weight");
    reveal_strlit(".mlp.up_proj.weight");
    reveal_strlit("mlp.gate_proj.weight");
    reveal_strlit(".mlp.gate_proj.weight");
    reveal_strlit("mlp.down_proj.weight");
    reveal_strlit(".mlp.down_proj.weight");
    reveal_strlit("input_layernorm.weight");
    reveal_strlit(".input_layernorm.weight");
    reveal_strlit("post_attention_layernorm.weight");
    reveal_strlit(".post_attention_layernorm.weight");
    reveal_strlit("pre_feedforward_layernorm.weight");
    reveal_strlit(".pre_feedforward_layernorm.weight");
    reveal_strlit("post_feedforward_layernorm.weight");
    reveal_strlit(".post_feedforward_layernorm.weight");
    reveal_strlit("per_layer_projection.weight");
    reveal_strlit(".per_layer_projection.weight");
    reveal_strlit("per_layer_input_gate.weight");
    reveal_strlit(".per_layer_input_gate.weight");
    reveal_strlit("post_per_layer_input_norm.weight");
    reveal_strlit(".post_per_layer_input_norm.weight");
    reveal_strlit("layer_scalar");
    reveal_strlit(".layer_scalar");
    assert(seq!['.'] + "self_attn.q_proj.weight"@ =~= ".self_attn.q_proj.weight"@);
    assert(seq!['.'] + "self_attn.k_proj.weight"@ =~= ".self_attn.k_proj.weight"@);
    assert(seq!['.'] + "self_attn.v_proj.weight"@ =~= ".self_attn.v_proj.weight"@);
    assert(seq!['.'] + "self_attn.o_proj.weight"@ =~= ".self_attn.o_proj.weight"@);
    assert(seq!['.'] + "self_attn.q_norm.weight"@ =~= ".self_attn.q_norm.weight"@);
    assert(seq!['.'] + "self_attn.k_norm.weight"@ =~= ".self_attn.k_norm.weight"@);
    assert(seq!['.'] + "mlp.up_proj.weight"@ =~= ".mlp.up_proj.weight"@);
    assert(seq!['.'] + "mlp.gate_proj.weight"@ =~= ".mlp.gate_proj.weight"@);
    assert(seq!['.'] + "mlp.down_proj.weight"@ =~= ".mlp.down_proj.weight"@);
    assert(seq!['.'] + "input_layernorm.weight"@ =~= ".input_layernorm.weight"@);
    assert(seq!['.'] + "post_attention_layernorm.weight"@ =~= ".post_attention_layernorm.weight"@);
    assert(seq!['.'] + "pre_feedforward_layernorm.weight"@ =~= ".pre_feedforward_layernorm.weight"@);
    assert(seq!['.'] + "post_feedforward_layernorm.weight"@ =~= ".post_feedforward_layernorm.weight"@);
    assert(seq!['.'] + "per_layer_projection.weight"@ =~= ".per_layer_projection.weight"@);
    assert(seq!['.'] + "per_layer_input_gate.weight"@ =~= ".per_layer_input_gate.weight"@);
    assert(seq!['.'] + "post_per_layer_input_norm.weight"@ =~= ".post_per_layer_input_norm.weight"@);
    assert(seq!['.'] + "layer_scalar"@ =~= ".layer_scalar"@);
    let p = "model.language_model.layers."@;
    let d = decimal(layer);
    assert forall|t: LayerTensor| #[trigger] spec_layer_tensor_name(layer, t) == p + d + (seq!['.']
        + spec_suffix(t)) by {
        assert(p + d + seq!['.'] + spec_suffix(t) =~= p + d + (seq!['.'] + spec_suffix(t)));
    }
}

} // verus!
