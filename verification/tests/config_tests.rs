use genloop::config::{
    choose_sampling, llama_dims, parse_arch, parse_dtype, select_weights, ArchType, ConfigError,
    DTypeTag, SamplingKind, WeightsError,
};

fn bytes(s: &str) -> Vec<u8> {
    s.as_bytes().to_vec()
}

#[test]
fn dtype_accepts_the_three_names() {
    assert_eq!(parse_dtype(&bytes("f16")), Ok(DTypeTag::F16));
    assert_eq!(parse_dtype(&bytes("bf16")), Ok(DTypeTag::BF16));
    assert_eq!(parse_dtype(&bytes("f32")), Ok(DTypeTag::F32));
}

#[test]
fn dtype_rejects_everything_else() {
    assert_eq!(parse_dtype(&bytes("f64")), Err(ConfigError::UnsupportedDType));
    assert_eq!(parse_dtype(&bytes("")), Err(ConfigError::UnsupportedDType));
    assert_eq!(parse_dtype(&bytes("F16")), Err(ConfigError::UnsupportedDType));
    assert_eq!(parse_dtype(&bytes("f16 ")), Err(ConfigError::UnsupportedDType));
}

#[test]
fn arch_accepts_the_six_names() {
    assert_eq!(parse_arch(&bytes("llama")), Ok(ArchType::Llama));
    assert_eq!(parse_arch(&bytes("mistral")), Ok(ArchType::Mistral));
    assert_eq!(parse_arch(&bytes("phi3")), Ok(ArchType::Phi3));
    assert_eq!(parse_arch(&bytes("qwen2")), Ok(ArchType::Qwen2));
    assert_eq!(parse_arch(&bytes("gemma")), Ok(ArchType::Gemma));
    assert_eq!(parse_arch(&bytes("gemma2")), Ok(ArchType::Gemma2));
}

#[test]
fn arch_rejects_unknown_names() {
    assert_eq!(parse_arch(&bytes("gpt2")), Err(ConfigError::UnknownArch));
    assert_eq!(parse_arch(&bytes("")), Err(ConfigError::UnknownArch));
}

#[test]
fn weights_single_file_wins() {
    assert_eq!(select_weights(true, false), Ok(()));
    assert_eq!(select_weights(true, true), Ok(()));
}

#[test]
fn weights_sharded_alone_is_rejected() {
    assert_eq!(select_weights(false, true), Err(WeightsError::Sharded));
}

#[test]
fn weights_missing_is_rejected() {
    assert_eq!(select_weights(false, false), Err(WeightsError::Missing));
}

#[test]
fn sampling_zero_temperature_is_greedy() {
    assert_eq!(choose_sampling(false, false, false), SamplingKind::ArgMax);
    assert_eq!(choose_sampling(false, true, true), SamplingKind::ArgMax);
}

#[test]
fn sampling_combines_top_k_and_top_p() {
    assert_eq!(choose_sampling(true, false, false), SamplingKind::All);
    assert_eq!(choose_sampling(true, true, false), SamplingKind::TopK);
    assert_eq!(choose_sampling(true, false, true), SamplingKind::TopP);
    assert_eq!(choose_sampling(true, true, true), SamplingKind::TopKThenTopP);
}

#[test]
fn dims_default_when_missing() {
    let d = llama_dims(None, None, None, None, None, None);
    assert_eq!(d.hidden_size, 4096);
    assert_eq!(d.intermediate_size, 11008);
    assert_eq!(d.vocab_size, 32000);
    assert_eq!(d.num_hidden_layers, 32);
    assert_eq!(d.num_attention_heads, 32);
    assert_eq!(d.num_key_value_heads, 32);
}

#[test]
fn dims_take_given_values() {
    let d = llama_dims(Some(2048), Some(5632), Some(151936), Some(24), Some(16), Some(8));
    assert_eq!(d.hidden_size, 2048);
    assert_eq!(d.intermediate_size, 5632);
    assert_eq!(d.vocab_size, 151936);
    assert_eq!(d.num_hidden_layers, 24);
    assert_eq!(d.num_attention_heads, 16);
    assert_eq!(d.num_key_value_heads, 8);
}

#[test]
fn dims_kv_heads_fall_back_to_attention_heads() {
    let d = llama_dims(None, None, None, None, Some(40), None);
    assert_eq!(d.num_attention_heads, 40);
    assert_eq!(d.num_key_value_heads, 40);
}
