//! Configuration decisions made before the generation loop starts: numeric
//! precision tags, sampling-mode selection, weights-file selection, model
//! dimension defaulting, and the record of loop parameters.

use vstd::prelude::*;

verus! {

/// Rejections raised while configuration is validated, before any
/// generation step runs.
#[derive(Clone, Copy, Debug, PartialEq, Eq, Structural)]
pub enum ConfigError {
    /// The prompt token sequence was empty.
    EmptyPrompt,
    /// The numeric precision tag was none of the supported names.
    UnsupportedDType,
    /// The architecture name was not recognised.
    UnknownArch,
    /// The model kind name was not recognised.
    UnknownModelKind,
    /// A GGUF load was asked for without naming a GGUF file.
    MissingGgufFile,
}

/// Numeric precision requested for the model weights.
#[derive(Clone, Copy, Debug, PartialEq, Eq, Structural)]
pub enum DTypeTag {
    F16,
    BF16,
    F32,
}

/// The bytes of the precision name accepted as half precision: "f16".
pub open spec fn dtype_name_f16() -> Seq<u8> {
    seq![('f' as u8), ('1' as u8), ('6' as u8)]
}

/// The bytes of the precision name accepted as bfloat16: "bf16".
pub open spec fn dtype_name_bf16() -> Seq<u8> {
    seq![('b' as u8), ('f' as u8), ('1' as u8), ('6' as u8)]
}

/// The bytes of the precision name accepted as single precision: "f32".
pub open spec fn dtype_name_f32() -> Seq<u8> {
    seq![('f' as u8), ('3' as u8), ('2' as u8)]
}

/// What `parse_dtype` returns for each possible name.
pub open spec fn spec_parse_dtype(name: Seq<u8>) -> Result<DTypeTag, ConfigError> {
    if name == dtype_name_f16() {
        Ok(DTypeTag::F16)
    } else if name == dtype_name_bf16() {
        Ok(DTypeTag::BF16)
    } else if name == dtype_name_f32() {
        Ok(DTypeTag::F32)
    } else {
        Err(ConfigError::UnsupportedDType)
    }
}

/// Parse a precision tag given as UTF-8 bytes. Exactly the names
/// "f16", "bf16" and "f32" are accepted; anything else is rejected.
pub fn parse_dtype(name: &Vec<u8>) -> (r: Result<DTypeTag, ConfigError>)
    ensures
        r == spec_parse_dtype(name@),
{
    let half_name: Vec<u8> = vec![('f' as u8), ('1' as u8), ('6' as u8)];
    let bfloat_name: Vec<u8> = vec![('b' as u8), ('f' as u8), ('1' as u8), ('6' as u8)];
    let single_name: Vec<u8> = vec![('f' as u8), ('3' as u8), ('2' as u8)];
    proof {
        assert(half_name@ =~= dtype_name_f16());
        assert(bfloat_name@ =~= dtype_name_bf16());
        assert(single_name@ =~= dtype_name_f32());
    }
    if crate::bytes::bytes_eq(name, &half_name) {
        Ok(DTypeTag::F16)
    } else if crate::bytes::bytes_eq(name, &bfloat_name) {
        Ok(DTypeTag::BF16)
    } else if crate::bytes::bytes_eq(name, &single_name) {
        Ok(DTypeTag::F32)
    } else {
        Err(ConfigError::UnsupportedDType)
    }
}

/// Model architecture families a driver may select.
#[derive(Clone, Copy, Debug, PartialEq, Eq, Structural)]
pub enum ArchType {
    Llama,
    Mistral,
    Phi3,
    Qwen2,
    Gemma,
    Gemma2,
}

/// The bytes of each accepted architecture name.
pub open spec fn arch_name_llama() -> Seq<u8> {
    seq![('l' as u8), ('l' as u8), ('a' as u8), ('m' as u8), ('a' as u8)]
}

pub open spec fn arch_name_mistral() -> Seq<u8> {
    seq![('m' as u8), ('i' as u8), ('s' as u8), ('t' as u8), ('r' as u8), ('a' as u8), ('l' as u8)]
}

pub open spec fn arch_name_phi3() -> Seq<u8> {
    seq![('p' as u8), ('h' as u8), ('i' as u8), ('3' as u8)]
}

pub open spec fn arch_name_qwen2() -> Seq<u8> {
    seq![('q' as u8), ('w' as u8), ('e' as u8), ('n' as u8), ('2' as u8)]
}

pub open spec fn arch_name_gemma() -> Seq<u8> {
    seq![('g' as u8), ('e' as u8), ('m' as u8), ('m' as u8), ('a' as u8)]
}

pub open spec fn arch_name_gemma2() -> Seq<u8> {
    seq![('g' as u8), ('e' as u8), ('m' as u8), ('m' as u8), ('a' as u8), ('2' as u8)]
}

/// What `parse_arch` returns for each possible name.
pub open spec fn spec_parse_arch(name: Seq<u8>) -> Result<ArchType, ConfigError> {
    if name == arch_name_llama() {
        Ok(ArchType::Llama)
    } else if name == arch_name_mistral() {
        Ok(ArchType::Mistral)
    } else if name == arch_name_phi3() {
        Ok(ArchType::Phi3)
    } else if name == arch_name_qwen2() {
        Ok(ArchType::Qwen2)
    } else if name == arch_name_gemma2() {
        Ok(ArchType::Gemma2)
    } else if name == arch_name_gemma() {
        Ok(ArchType::Gemma)
    } else {
        Err(ConfigError::UnknownArch)
    }
}

/// Parse an architecture name given as UTF-8 bytes.
pub fn parse_arch(name: &Vec<u8>) -> (r: Result<ArchType, ConfigError>)
    ensures
        r == spec_parse_arch(name@),
{
    let llama: Vec<u8> = vec![('l' as u8), ('l' as u8), ('a' as u8), ('m' as u8), ('a' as u8)];
    let mistral: Vec<u8> = vec![('m' as u8), ('i' as u8), ('s' as u8), ('t' as u8), ('r' as u8), ('a' as u8), ('l' as u8)];
    let phi3: Vec<u8> = vec![('p' as u8), ('h' as u8), ('i' as u8), ('3' as u8)];
    let qwen2: Vec<u8> = vec![('q' as u8), ('w' as u8), ('e' as u8), ('n' as u8), ('2' as u8)];
    let gemma: Vec<u8> = vec![('g' as u8), ('e' as u8), ('m' as u8), ('m' as u8), ('a' as u8)];
    let gemma2: Vec<u8> = vec![('g' as u8), ('e' as u8), ('m' as u8), ('m' as u8), ('a' as u8), ('2' as u8)];
    proof {
        assert(llama@ =~= arch_name_llama());
        assert(mistral@ =~= arch_name_mistral());
        assert(phi3@ =~= arch_name_phi3());
        assert(qwen2@ =~= arch_name_qwen2());
        assert(gemma@ =~= arch_name_gemma());
        assert(gemma2@ =~= arch_name_gemma2());
    }
    if crate::bytes::bytes_eq(name, &llama) {
        Ok(ArchType::Llama)
    } else if crate::bytes::bytes_eq(name, &mistral) {
        Ok(ArchType::Mistral)
    } else if crate::bytes::bytes_eq(name, &phi3) {
        Ok(ArchType::Phi3)
    } else if crate::bytes::bytes_eq(name, &qwen2) {
        Ok(ArchType::Qwen2)
    } else if crate::bytes::bytes_eq(name, &gemma2) {
        Ok(ArchType::Gemma2)
    } else if crate::bytes::bytes_eq(name, &gemma) {
        Ok(ArchType::Gemma)
    } else {
        Err(ConfigError::UnknownArch)
    }
}

/// Which loader family a serving runtime should use.
#[derive(Clone, Copy, Debug, PartialEq, Eq, Structural)]
pub enum ModelKind {
    /// Standard full-precision model repositories.
    Normal,
    /// GGUF quantised model files.
    Gguf,
}

/// The bytes of each accepted model kind name.
pub open spec fn kind_name_normal() -> Seq<u8> {
    seq![('n' as u8), ('o' as u8), ('r' as u8), ('m' as u8), ('a' as u8), ('l' as u8)]
}

pub open spec fn kind_name_gguf() -> Seq<u8> {
    seq![('g' as u8), ('g' as u8), ('u' as u8), ('f' as u8)]
}

/// What `parse_model_kind` returns for each possible name.
pub open spec fn spec_parse_model_kind(name: Seq<u8>) -> Result<ModelKind, ConfigError> {
    if name == kind_name_normal() {
        Ok(ModelKind::Normal)
    } else if name == kind_name_gguf() {
        Ok(ModelKind::Gguf)
    } else {
        Err(ConfigError::UnknownModelKind)
    }
}

/// Parse a model kind name given as UTF-8 bytes.
pub fn parse_model_kind(name: &Vec<u8>) -> (r: Result<ModelKind, ConfigError>)
    ensures
        r == spec_parse_model_kind(name@),
{
    let normal: Vec<u8> = vec![
        ('n' as u8),
        ('o' as u8),
        ('r' as u8),
        ('m' as u8),
        ('a' as u8),
        ('l' as u8),
    ];
    let gguf: Vec<u8> = vec![('g' as u8), ('g' as u8), ('u' as u8), ('f' as u8)];
    proof {
        assert(normal@ =~= kind_name_normal());
        assert(gguf@ =~= kind_name_gguf());
    }
    if crate::bytes::bytes_eq(name, &normal) {
        Ok(ModelKind::Normal)
    } else if crate::bytes::bytes_eq(name, &gguf) {
        Ok(ModelKind::Gguf)
    } else {
        Err(ConfigError::UnknownModelKind)
    }
}

/// The artifacts a GGUF load needs: the weights file, which must be
/// named explicitly, and the tokenizer model id, which falls back to
/// the model id when none is given.
pub fn gguf_sources(model_id: String, gguf_file: Option<String>, tokenizer_id: Option<String>) -> (r:
    Result<(String, String), ConfigError>)
    ensures
        gguf_file is None <==> r == Err::<(String, String), ConfigError>(
            ConfigError::MissingGgufFile,
        ),
        r matches Ok(p) ==> {
            &&& gguf_file matches Some(f) && p.0@ == f@
            &&& (tokenizer_id matches Some(t) ==> p.1@ == t@)
            &&& (tokenizer_id is None ==> p.1@ == model_id@)
        },
{
    let file = match gguf_file {
        Some(f) => f,
        None => {
            return Err(ConfigError::MissingGgufFile);
        },
    };
    let tok = match tokenizer_id {
        Some(t) => t,
        None => model_id,
    };
    Ok((file, tok))
}

/// Failures while locating weight files in a local model directory.
#[derive(Clone, Copy, Debug, PartialEq, Eq, Structural)]
pub enum WeightsError {
    /// Only a sharded weights file was found, which is not supported.
    Sharded,
    /// No weights file was found at all.
    Missing,
}

/// Decide whether a local model directory can be used, given whether a
/// single-file weights file is present and whether a sharded set is.
/// A single file wins; a sharded set alone is rejected as unsupported;
/// with neither present the directory is rejected as incomplete.
pub fn select_weights(has_single: bool, has_sharded: bool) -> (r: Result<(), WeightsError>)
    ensures
        r == if has_single {
            Ok::<(), WeightsError>(())
        } else if has_sharded {
            Err::<(), WeightsError>(WeightsError::Sharded)
        } else {
            Err::<(), WeightsError>(WeightsError::Missing)
        },
{
    if has_single {
        Ok(())
    } else if has_sharded {
        Err(WeightsError::Sharded)
    } else {
        Err(WeightsError::Missing)
    }
}

/// The sampling strategy a driver should construct, chosen from which
/// sampling knobs are set.
#[derive(Clone, Copy, Debug, PartialEq, Eq, Structural)]
pub enum SamplingKind {
    /// Greedy decoding: temperature is zero or negative.
    ArgMax,
    /// Plain temperature sampling over the whole distribution.
    All,
    /// Keep only the k most likely tokens.
    TopK,
    /// Nucleus sampling.
    TopP,
    /// Top-k filtering followed by nucleus sampling.
    TopKThenTopP,
}

/// What `choose_sampling` returns for each combination of knobs.
pub open spec fn spec_choose_sampling(
    temperature_positive: bool,
    has_top_k: bool,
    has_top_p: bool,
) -> SamplingKind {
    if !temperature_positive {
        SamplingKind::ArgMax
    } else if has_top_k && has_top_p {
        SamplingKind::TopKThenTopP
    } else if has_top_k {
        SamplingKind::TopK
    } else if has_top_p {
        SamplingKind::TopP
    } else {
        SamplingKind::All
    }
}

/// Choose the sampling strategy: greedy when the temperature is not
/// positive, otherwise the combination selected by which of top-k and
/// top-p are set.
pub fn choose_sampling(temperature_positive: bool, has_top_k: bool, has_top_p: bool) -> (r:
    SamplingKind)
    ensures
        r == spec_choose_sampling(temperature_positive, has_top_k, has_top_p),
{
    if !temperature_positive {
        SamplingKind::ArgMax
    } else if has_top_k && has_top_p {
        SamplingKind::TopKThenTopP
    } else if has_top_k {
        SamplingKind::TopK
    } else if has_top_p {
        SamplingKind::TopP
    } else {
        SamplingKind::All
    }
}

/// Default transformer dimensions assumed when a model configuration
/// file omits a field.
pub const DEFAULT_HIDDEN_SIZE: u64 = 4096;

pub const DEFAULT_INTERMEDIATE_SIZE: u64 = 11008;

pub const DEFAULT_VOCAB_SIZE: u64 = 32000;

pub const DEFAULT_NUM_LAYERS: u64 = 32;

pub const DEFAULT_NUM_HEADS: u64 = 32;

/// Integer dimensions of a llama-family model, after defaulting.
#[derive(Clone, Copy, Debug, PartialEq, Eq, Structural)]
pub struct LlamaDims {
    pub hidden_size: usize,
    pub intermediate_size: usize,
    pub vocab_size: usize,
    pub num_hidden_layers: usize,
    pub num_attention_heads: usize,
    pub num_key_value_heads: usize,
}

/// The value of an optional field, or its default.
pub open spec fn or_default(field: Option<u64>, default: u64) -> u64 {
    match field {
        Some(v) => v,
        None => default,
    }
}

/// Fill in the integer dimensions read from a model configuration file,
/// defaulting each missing field. The key-value head count falls back to
/// the attention head count before falling back to its default.
pub fn llama_dims(
    hidden_size: Option<u64>,
    intermediate_size: Option<u64>,
    vocab_size: Option<u64>,
    num_hidden_layers: Option<u64>,
    num_attention_heads: Option<u64>,
    num_key_value_heads: Option<u64>,
) -> (d: LlamaDims)
    ensures
        d.hidden_size == or_default(hidden_size, DEFAULT_HIDDEN_SIZE) as usize,
        d.intermediate_size == or_default(intermediate_size, DEFAULT_INTERMEDIATE_SIZE) as usize,
        d.vocab_size == or_default(vocab_size, DEFAULT_VOCAB_SIZE) as usize,
        d.num_hidden_layers == or_default(num_hidden_layers, DEFAULT_NUM_LAYERS) as usize,
        d.num_attention_heads == or_default(num_attention_heads, DEFAULT_NUM_HEADS) as usize,
        d.num_key_value_heads == or_default(
            if num_key_value_heads is Some {
                num_key_value_heads
            } else {
                num_attention_heads
            },
            DEFAULT_NUM_HEADS,
        ) as usize,
{
    let kv = match num_key_value_heads {
        Some(v) => Some(v),
        None => num_attention_heads,
    };
    LlamaDims {
        hidden_size: unwrap_or(hidden_size, DEFAULT_HIDDEN_SIZE) as usize,
        intermediate_size: unwrap_or(intermediate_size, DEFAULT_INTERMEDIATE_SIZE) as usize,
        vocab_size: unwrap_or(vocab_size, DEFAULT_VOCAB_SIZE) as usize,
        num_hidden_layers: unwrap_or(num_hidden_layers, DEFAULT_NUM_LAYERS) as usize,
        num_attention_heads: unwrap_or(num_attention_heads, DEFAULT_NUM_HEADS) as usize,
        num_key_value_heads: unwrap_or(kv, DEFAULT_NUM_HEADS) as usize,
    }
}

/// The value of an optional field, or its default.
fn unwrap_or(field: Option<u64>, default: u64) -> (r: u64)
    ensures
        r == or_default(field, default),
{
    match field {
        Some(v) => v,
        None => default,
    }
}

/// The parameters the generation loop reads. Created once before the
/// loop starts and never changed while it runs.
///
/// The float-valued sampling knobs (temperature, top-p, the penalty
/// strength) belong to the external sampler and penalty function; the
/// loop itself only needs to know whether the penalty is enabled, that
/// is, whether its strength differs from one.
#[derive(Clone, Debug)]
pub struct GenerationConfig {
    /// Maximum number of generation steps.
    pub max_tokens: usize,
    /// Seed handed to the external sampler's generator.
    pub seed: u64,
    /// Whether a repeat penalty is applied at all.
    pub penalty_enabled: bool,
    /// Length of the trailing prompt window the penalty looks at.
    pub repeat_last_n: usize,
    /// UTF-8 bytes of the end-of-sequence marker text.
    pub eos: Vec<u8>,
}

} // verus!
