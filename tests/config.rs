use llama_cpp_types::{
    ConfigTranslationError, ContextField, ContextParams, F32Bits, F64Bits, Generate, LlamaLoraAdaptor, LogitBias,
    ModelLoad,
};

fn f32b(v: f32) -> Option<F32Bits> {
    Some(F32Bits { bits: v.to_bits() })
}

fn f64b(v: f64) -> Option<F64Bits> {
    Some(F64Bits { bits: v.to_bits() })
}

fn request(prompt: &str) -> Generate {
    Generate {
        n_threads: 4,
        n_tok_predict: 128,
        logit_bias: None,
        top_k: None,
        top_p: None,
        tfs_z: None,
        temp: None,
        typical_p: None,
        repeat_penalty: None,
        repeat_last_n: None,
        frequency_penalty: None,
        presence_penalty: None,
        mirostat: None,
        mirostat_tau: None,
        mirostat_eta: None,
        stop_sequence: None,
        penalize_nl: None,
        prompt: prompt.to_string(),
    }
}

fn default_params() -> ContextParams {
    ContextParams {
        seed: 0,
        n_ctx: 2048,
        n_batch: 512,
        n_gqa: 1,
        rms_norm_eps: F32Bits { bits: 0.000005f32.to_bits() },
        n_gpu_layers: 0,
        main_gpu: 0,
        rope_freq_base: F32Bits { bits: 10000.0f32.to_bits() },
        rope_freq_scale: F32Bits { bits: 1.0f32.to_bits() },
        low_vram: false,
        mul_mat_q: false,
        f16_kv: true,
        logits_all: false,
        vocab_only: false,
        use_mmap: true,
        use_mlock: false,
        embedding: false,
    }
}

#[test]
fn model_load_omitted_fields_take_defaults() {
    let d = ModelLoad::new("m.bin".to_string()).defaulted();
    assert_eq!(d.model_path, "m.bin");
    assert_eq!(d.n_ctx, Some(2048));
    assert_eq!(d.n_gpu_layers, Some(0));
    assert_eq!(d.seed, Some(0));
    assert_eq!(d.low_vram, Some(false));
    assert_eq!(d.mul_mat_q, Some(false));
    assert_eq!(d.main_gpu, Some(0));
    assert_eq!(d.f16_kv, Some(true));
    assert_eq!(d.logits_all, Some(false));
    assert_eq!(d.vocab_only, Some(false));
    assert_eq!(d.use_mlock, Some(false));
    assert_eq!(d.embedding, Some(false));
    assert_eq!(d.use_mmap, Some(true));
    assert_eq!(d.n_batch, Some(512));
    assert_eq!(d.n_gqa, Some(1));
    assert_eq!(d.rope_freq_base, f32b(10000.0));
    assert_eq!(d.rope_freq_scale, f32b(1.0));
    assert_eq!(d.rms_norm_eps, f32b(0.000005));
    assert!(d.lora.is_none());
}

#[test]
fn model_load_default_matches_defaulted_empty_path() {
    let d = ModelLoad::default();
    assert_eq!(d.model_path, "");
    let e = ModelLoad::new(String::new()).defaulted();
    assert_eq!(format!("{:?}", d), format!("{:?}", e));
}

#[test]
fn model_load_given_fields_are_kept() {
    let mut x = ModelLoad::new("a.gguf".to_string());
    x.n_ctx = Some(4096);
    x.f16_kv = Some(false);
    x.use_mmap = Some(false);
    x.rope_freq_scale = f32b(0.5);
    x.lora = Some(LlamaLoraAdaptor { lora_adapter: "l.bin".to_string(), lora_base: None, n_threads: 2 });
    let d = x.defaulted();
    assert_eq!(d.n_ctx, Some(4096));
    assert_eq!(d.f16_kv, Some(false));
    assert_eq!(d.use_mmap, Some(false));
    assert_eq!(d.rope_freq_scale, f32b(0.5));
    assert_eq!(d.n_batch, Some(512));
    assert_eq!(d.lora.as_ref().map(|l| l.lora_adapter.clone()), Some("l.bin".to_string()));
}

#[test]
fn model_load_defaulting_is_idempotent() {
    let mut x = ModelLoad::new("m.bin".to_string());
    x.seed = Some(42);
    x.embedding = Some(true);
    let once = x.defaulted();
    let twice = once.clone().defaulted();
    assert_eq!(format!("{:?}", once), format!("{:?}", twice));
}

#[test]
fn generate_omitted_tunables_take_defaults() {
    let d = request("hi").defaulted();
    assert_eq!(d.prompt, "hi");
    assert_eq!(d.top_k, Some(40));
    assert_eq!(d.top_p, f64b(0.95));
    assert_eq!(d.tfs_z, f64b(1.0));
    assert_eq!(d.temp, f64b(0.80));
    assert_eq!(d.typical_p, f64b(1.0));
    assert_eq!(d.repeat_penalty, f64b(1.10));
    assert_eq!(d.repeat_last_n, Some(64));
    assert_eq!(d.frequency_penalty, f64b(0.0));
    assert_eq!(d.presence_penalty, f64b(0.0));
    assert_eq!(d.mirostat, Some(0));
    assert_eq!(d.mirostat_tau, f64b(5.0));
    assert_eq!(d.mirostat_eta, f64b(0.1));
    assert_eq!(d.penalize_nl, Some(true));
    assert!(d.logit_bias.is_none());
    assert!(d.stop_sequence.is_none());
    assert_eq!(d.n_threads, 4);
    assert_eq!(d.n_tok_predict, 128);
}

#[test]
fn generate_given_tunables_and_sentinels_are_kept() {
    let mut g = request("go");
    g.top_k = Some(-1);
    g.repeat_last_n = Some(-1);
    g.temp = f64b(0.2);
    g.mirostat = Some(2);
    g.penalize_nl = Some(false);
    g.stop_sequence = Some("###".to_string());
    g.logit_bias = Some(vec![LogitBias { token: 13, bias: F64Bits { bits: (-1.5f64).to_bits() } }]);
    let d = g.defaulted();
    assert_eq!(d.top_k, Some(-1));
    assert_eq!(d.repeat_last_n, Some(-1));
    assert_eq!(d.temp, f64b(0.2));
    assert_eq!(d.mirostat, Some(2));
    assert_eq!(d.penalize_nl, Some(false));
    assert_eq!(d.stop_sequence.as_deref(), Some("###"));
    assert_eq!(d.logit_bias.as_ref().map(|v| v.len()), Some(1));
    assert_eq!(d.top_p, f64b(0.95));
}

#[test]
fn generate_defaulting_is_idempotent() {
    let mut g = request("hi");
    g.top_p = f64b(0.5);
    let once = g.defaulted();
    let twice = once.clone().defaulted();
    assert_eq!(format!("{:?}", once), format!("{:?}", twice));
}

#[test]
fn translate_defaults() {
    let x = ModelLoad::new("m.bin".to_string());
    assert_eq!(ModelLoad::to_llama_context_params(&x), Ok(default_params()));
}

#[test]
fn translate_reads_omitted_as_default() {
    let mut x = ModelLoad::new("m.bin".to_string());
    x.n_gpu_layers = Some(35);
    let direct = ModelLoad::to_llama_context_params(&x);
    let via_defaults = ModelLoad::to_llama_context_params(&x.defaulted());
    assert_eq!(direct, via_defaults);
}

#[test]
fn translate_round_trip() {
    let mut x = ModelLoad::new("m.bin".to_string());
    x.n_ctx = Some(i32::MAX as i64);
    x.n_gpu_layers = Some(-1);
    x.seed = Some(u32::MAX as i64);
    x.main_gpu = Some(1);
    x.n_batch = Some(i32::MIN as i64);
    x.n_gqa = Some(8);
    x.low_vram = Some(true);
    x.mul_mat_q = Some(true);
    x.rms_norm_eps = f32b(0.00001);
    let d = x.clone().defaulted();
    let p = ModelLoad::to_llama_context_params(&x).unwrap();
    assert_eq!(Some(p.n_ctx as i64), d.n_ctx);
    assert_eq!(Some(p.n_gpu_layers as i64), d.n_gpu_layers);
    assert_eq!(Some(p.seed as i64), d.seed);
    assert_eq!(Some(p.main_gpu as i64), d.main_gpu);
    assert_eq!(Some(p.n_batch as i64), d.n_batch);
    assert_eq!(Some(p.n_gqa as i64), d.n_gqa);
    assert_eq!(Some(p.low_vram), d.low_vram);
    assert_eq!(Some(p.mul_mat_q), d.mul_mat_q);
    assert_eq!(Some(p.f16_kv), d.f16_kv);
    assert_eq!(Some(p.use_mmap), d.use_mmap);
    assert_eq!(Some(p.rms_norm_eps), d.rms_norm_eps);
    assert_eq!(Some(p.rope_freq_base), d.rope_freq_base);
    assert_eq!(p.seed, u32::MAX);
}

#[test]
fn translate_distinct_fields_give_distinct_records() {
    let a = ModelLoad::new("m.bin".to_string());
    let mut b = ModelLoad::new("m.bin".to_string());
    b.n_batch = Some(256);
    let pa = ModelLoad::to_llama_context_params(&a).unwrap();
    let pb = ModelLoad::to_llama_context_params(&b).unwrap();
    assert_ne!(pa.n_batch, pb.n_batch);
    assert_eq!(pa.n_ctx, pb.n_ctx);
    let mut c = ModelLoad::new("m.bin".to_string());
    c.vocab_only = Some(true);
    let pc = ModelLoad::to_llama_context_params(&c).unwrap();
    assert_ne!(pa.vocab_only, pc.vocab_only);
}

#[test]
fn translate_rejects_n_ctx_too_wide() {
    let mut x = ModelLoad::new("m.bin".to_string());
    x.n_ctx = Some(i32::MAX as i64 + 1);
    assert_eq!(
        ModelLoad::to_llama_context_params(&x),
        Err(ConfigTranslationError { field: ContextField::NCtx, value: 2147483648 })
    );
}

#[test]
fn translate_rejects_negative_seed() {
    let mut x = ModelLoad::new("m.bin".to_string());
    x.seed = Some(-1);
    assert_eq!(
        ModelLoad::to_llama_context_params(&x),
        Err(ConfigTranslationError { field: ContextField::Seed, value: -1 })
    );
}

#[test]
fn translate_rejects_seed_too_wide() {
    let mut x = ModelLoad::new("m.bin".to_string());
    x.seed = Some(u32::MAX as i64 + 1);
    assert_eq!(
        ModelLoad::to_llama_context_params(&x),
        Err(ConfigTranslationError { field: ContextField::Seed, value: 4294967296 })
    );
}

#[test]
fn translate_rejects_each_narrow_field() {
    let cases: Vec<(ContextField, fn(&mut ModelLoad, i64))> = vec![
        (ContextField::NGpuLayers, |x, v| x.n_gpu_layers = Some(v)),
        (ContextField::MainGpu, |x, v| x.main_gpu = Some(v)),
        (ContextField::NBatch, |x, v| x.n_batch = Some(v)),
        (ContextField::NGqa, |x, v| x.n_gqa = Some(v)),
    ];
    for (field, set) in cases {
        let mut x = ModelLoad::new("m.bin".to_string());
        set(&mut x, i32::MIN as i64 - 1);
        assert_eq!(
            ModelLoad::to_llama_context_params(&x),
            Err(ConfigTranslationError { field, value: -2147483649 })
        );
    }
}

#[test]
fn translate_reports_first_field_in_order() {
    let mut x = ModelLoad::new("m.bin".to_string());
    x.n_gqa = Some(i64::MAX);
    x.seed = Some(i64::MIN);
    assert_eq!(
        ModelLoad::to_llama_context_params(&x),
        Err(ConfigTranslationError { field: ContextField::Seed, value: i64::MIN })
    );
}
