//! Model-load configuration, its defaults, and its checked translation into
//! the engine's context parameter record.
use vstd::prelude::*;
use crate::bits::F32Bits;

verus! {

/// Context size in tokens: 2048.
pub const DEFAULT_N_CTX: i64 = 2048;
/// Layers offloaded to the GPU: none.
pub const DEFAULT_N_GPU_LAYERS: i64 = 0;
/// Random seed: 0.
pub const DEFAULT_SEED: i64 = 0;
/// Low-VRAM mode: off.
pub const DEFAULT_LOW_VRAM: bool = false;
/// Quantized matrix multiplication kernels: off.
pub const DEFAULT_MUL_MAT_Q: bool = false;
/// Primary GPU index: 0.
pub const DEFAULT_MAIN_GPU: i64 = 0;
/// 16-bit key/value cache: on.
pub const DEFAULT_F16_KV: bool = true;
/// Logits for every token: off.
pub const DEFAULT_LOGITS_ALL: bool = false;
/// Vocabulary-only load: off.
pub const DEFAULT_VOCAB_ONLY: bool = false;
/// Locking the model in memory: off.
pub const DEFAULT_USE_MLOCK: bool = false;
/// Embedding output mode: off.
pub const DEFAULT_EMBEDDING: bool = false;
/// Memory-mapping the model file: on.
pub const DEFAULT_USE_MMAP: bool = true;
/// Prompt batch size: 512.
pub const DEFAULT_N_BATCH: i64 = 512;
/// Grouped-query attention factor: 1.
pub const DEFAULT_N_GQA: i64 = 1;
/// RoPE base frequency: 10000.0 (single precision).
pub const DEFAULT_ROPE_FREQ_BASE: u32 = 0x461C_4000;
/// RoPE frequency scale: 1.0 (single precision).
pub const DEFAULT_ROPE_FREQ_SCALE: u32 = 0x3F80_0000;
/// RMS-norm epsilon: 0.000005 (single precision).
pub const DEFAULT_RMS_NORM_EPS: u32 = 0x36A7_C5AC;

/// A LoRA adapter to apply on top of the base model's weights.
#[derive(Clone, Debug, Default)]
pub struct LlamaLoraAdaptor {
    pub lora_adapter: String,
    pub lora_base: Option<String>,
    pub n_threads: i32,
}

/// Parameters for opening a model context. All but the model path may be
/// omitted (`None`), which stands for the default; integers are taken as
/// the host gives them, 64 bits wide, and narrowed on translation.
#[derive(Clone, Debug)]
pub struct ModelLoad {
    pub model_path: String,
    pub n_ctx: Option<i64>,
    pub n_gpu_layers: Option<i64>,
    pub seed: Option<i64>,
    pub low_vram: Option<bool>,
    pub mul_mat_q: Option<bool>,
    pub main_gpu: Option<i64>,
    pub f16_kv: Option<bool>,
    pub logits_all: Option<bool>,
    pub vocab_only: Option<bool>,
    pub use_mlock: Option<bool>,
    pub embedding: Option<bool>,
    pub use_mmap: Option<bool>,
    pub n_batch: Option<i64>,
    pub n_gqa: Option<i64>,
    pub rope_freq_base: Option<F32Bits>,
    pub rope_freq_scale: Option<F32Bits>,
    pub rms_norm_eps: Option<F32Bits>,
    pub lora: Option<LlamaLoraAdaptor>,
}

/// The engine's context parameter record, field for field in its native
/// widths. The engine's progress callback and tensor-split pointer are not
/// part of it: they are left empty.
#[derive(Clone, Copy, Debug, PartialEq, Eq, Structural)]
pub struct ContextParams {
    pub seed: u32,
    pub n_ctx: i32,
    pub n_batch: i32,
    pub n_gqa: i32,
    pub rms_norm_eps: F32Bits,
    pub n_gpu_layers: i32,
    pub main_gpu: i32,
    pub rope_freq_base: F32Bits,
    pub rope_freq_scale: F32Bits,
    pub low_vram: bool,
    pub mul_mat_q: bool,
    pub f16_kv: bool,
    pub logits_all: bool,
    pub vocab_only: bool,
    pub use_mmap: bool,
    pub use_mlock: bool,
    pub embedding: bool,
}

/// The integer fields whose native width is narrower than the host's.
#[derive(Clone, Copy, Debug, PartialEq, Eq, Structural)]
pub enum ContextField {
    NCtx,
    NGpuLayers,
    Seed,
    MainGpu,
    NBatch,
    NGqa,
}

/// A configuration value that the native field cannot represent.
#[derive(Clone, Copy, Debug, PartialEq, Eq, Structural)]
pub struct ConfigTranslationError {
    pub field: ContextField,
    pub value: i64,
}

pub open spec fn fits_i32(v: i64) -> bool {
    i32::MIN <= v && v <= i32::MAX
}

pub open spec fn fits_u32(v: i64) -> bool {
    0 <= v && v <= u32::MAX
}

/// `v` when present, else a value of the given bit pattern.
pub open spec fn or_f32(v: Option<F32Bits>, bits: u32) -> F32Bits {
    match v {
        Some(x) => x,
        None => F32Bits { bits },
    }
}

impl ModelLoad {
    /// The configuration of the given model path with every field omitted.
    pub open spec fn omitted(model_path: String) -> ModelLoad {
        ModelLoad {
            model_path,
            n_ctx: None,
            n_gpu_layers: None,
            seed: None,
            low_vram: None,
            mul_mat_q: None,
            main_gpu: None,
            f16_kv: None,
            logits_all: None,
            vocab_only: None,
            use_mlock: None,
            embedding: None,
            use_mmap: None,
            n_batch: None,
            n_gqa: None,
            rope_freq_base: None,
            rope_freq_scale: None,
            rms_norm_eps: None,
            lora: None,
        }
    }

    /// The configuration with every omitted field replaced by its default.
    /// The model path and the LoRA adapter, which have none, stay as given.
    pub open spec fn with_defaults(self) -> ModelLoad {
        ModelLoad {
            n_ctx: Some(self.n_ctx.unwrap_or(DEFAULT_N_CTX)),
            n_gpu_layers: Some(self.n_gpu_layers.unwrap_or(DEFAULT_N_GPU_LAYERS)),
            seed: Some(self.seed.unwrap_or(DEFAULT_SEED)),
            low_vram: Some(self.low_vram.unwrap_or(DEFAULT_LOW_VRAM)),
            mul_mat_q: Some(self.mul_mat_q.unwrap_or(DEFAULT_MUL_MAT_Q)),
            main_gpu: Some(self.main_gpu.unwrap_or(DEFAULT_MAIN_GPU)),
            f16_kv: Some(self.f16_kv.unwrap_or(DEFAULT_F16_KV)),
            logits_all: Some(self.logits_all.unwrap_or(DEFAULT_LOGITS_ALL)),
            vocab_only: Some(self.vocab_only.unwrap_or(DEFAULT_VOCAB_ONLY)),
            use_mlock: Some(self.use_mlock.unwrap_or(DEFAULT_USE_MLOCK)),
            embedding: Some(self.embedding.unwrap_or(DEFAULT_EMBEDDING)),
            use_mmap: Some(self.use_mmap.unwrap_or(DEFAULT_USE_MMAP)),
            n_batch: Some(self.n_batch.unwrap_or(DEFAULT_N_BATCH)),
            n_gqa: Some(self.n_gqa.unwrap_or(DEFAULT_N_GQA)),
            rope_freq_base: Some(or_f32(self.rope_freq_base, DEFAULT_ROPE_FREQ_BASE)),
            rope_freq_scale: Some(or_f32(self.rope_freq_scale, DEFAULT_ROPE_FREQ_SCALE)),
            rms_norm_eps: Some(or_f32(self.rms_norm_eps, DEFAULT_RMS_NORM_EPS)),
            ..self
        }
    }

    /// The first narrowed field, in declaration order, whose value (given or
    /// default) the native field cannot represent, with that value.
    pub open spec fn first_unrepresentable(self) -> Option<ConfigTranslationError> {
        let n_ctx = self.n_ctx.unwrap_or(DEFAULT_N_CTX);
        let n_gpu_layers = self.n_gpu_layers.unwrap_or(DEFAULT_N_GPU_LAYERS);
        let seed = self.seed.unwrap_or(DEFAULT_SEED);
        let main_gpu = self.main_gpu.unwrap_or(DEFAULT_MAIN_GPU);
        let n_batch = self.n_batch.unwrap_or(DEFAULT_N_BATCH);
        let n_gqa = self.n_gqa.unwrap_or(DEFAULT_N_GQA);
        if !fits_i32(n_ctx) {
            Some(ConfigTranslationError { field: ContextField::NCtx, value: n_ctx })
        } else if !fits_i32(n_gpu_layers) {
            Some(ConfigTranslationError { field: ContextField::NGpuLayers, value: n_gpu_layers })
        } else if !fits_u32(seed) {
            Some(ConfigTranslationError { field: ContextField::Seed, value: seed })
        } else if !fits_i32(main_gpu) {
            Some(ConfigTranslationError { field: ContextField::MainGpu, value: main_gpu })
        } else if !fits_i32(n_batch) {
            Some(ConfigTranslationError { field: ContextField::NBatch, value: n_batch })
        } else if !fits_i32(n_gqa) {
            Some(ConfigTranslationError { field: ContextField::NGqa, value: n_gqa })
        } else {
            None
        }
    }

    /// The native record of the configuration, omitted fields read as their
    /// defaults, each value carried over to its native field.
    pub open spec fn native(self) -> ContextParams {
        ContextParams {
            seed: self.seed.unwrap_or(DEFAULT_SEED) as u32,
            n_ctx: self.n_ctx.unwrap_or(DEFAULT_N_CTX) as i32,
            n_batch: self.n_batch.unwrap_or(DEFAULT_N_BATCH) as i32,
            n_gqa: self.n_gqa.unwrap_or(DEFAULT_N_GQA) as i32,
            rms_norm_eps: or_f32(self.rms_norm_eps, DEFAULT_RMS_NORM_EPS),
            n_gpu_layers: self.n_gpu_layers.unwrap_or(DEFAULT_N_GPU_LAYERS) as i32,
            main_gpu: self.main_gpu.unwrap_or(DEFAULT_MAIN_GPU) as i32,
            rope_freq_base: or_f32(self.rope_freq_base, DEFAULT_ROPE_FREQ_BASE),
            rope_freq_scale: or_f32(self.rope_freq_scale, DEFAULT_ROPE_FREQ_SCALE),
            low_vram: self.low_vram.unwrap_or(DEFAULT_LOW_VRAM),
            mul_mat_q: self.mul_mat_q.unwrap_or(DEFAULT_MUL_MAT_Q),
            f16_kv: self.f16_kv.unwrap_or(DEFAULT_F16_KV),
            logits_all: self.logits_all.unwrap_or(DEFAULT_LOGITS_ALL),
            vocab_only: self.vocab_only.unwrap_or(DEFAULT_VOCAB_ONLY),
            use_mmap: self.use_mmap.unwrap_or(DEFAULT_USE_MMAP),
            use_mlock: self.use_mlock.unwrap_or(DEFAULT_USE_MLOCK),
            embedding: self.embedding.unwrap_or(DEFAULT_EMBEDDING),
        }
    }

    /// The configuration of the given model path with every field omitted.
    pub fn new(model_path: String) -> (r: ModelLoad)
        ensures
            r == ModelLoad::omitted(model_path),
    {
        ModelLoad {
            model_path,
            n_ctx: None,
            n_gpu_layers: None,
            seed: None,
            low_vram: None,
            mul_mat_q: None,
            main_gpu: None,
            f16_kv: None,
            logits_all: None,
            vocab_only: None,
            use_mlock: None,
            embedding: None,
            use_mmap: None,
            n_batch: None,
            n_gqa: None,
            rope_freq_base: None,
            rope_freq_scale: None,
            rms_norm_eps: None,
            lora: None,
        }
    }

    /// Fills in every omitted field with its default; given values, the
    /// model path and the LoRA adapter are kept.
    pub fn defaulted(self) -> (r: ModelLoad)
        ensures
            r == self.with_defaults(),
    {
        let rope_freq_base = fill_f32(self.rope_freq_base, DEFAULT_ROPE_FREQ_BASE);
        let rope_freq_scale = fill_f32(self.rope_freq_scale, DEFAULT_ROPE_FREQ_SCALE);
        let rms_norm_eps = fill_f32(self.rms_norm_eps, DEFAULT_RMS_NORM_EPS);
        ModelLoad {
            n_ctx: Some(self.n_ctx.unwrap_or(DEFAULT_N_CTX)),
            n_gpu_layers: Some(self.n_gpu_layers.unwrap_or(DEFAULT_N_GPU_LAYERS)),
            seed: Some(self.seed.unwrap_or(DEFAULT_SEED)),
            low_vram: Some(self.low_vram.unwrap_or(DEFAULT_LOW_VRAM)),
            mul_mat_q: Some(self.mul_mat_q.unwrap_or(DEFAULT_MUL_MAT_Q)),
            main_gpu: Some(self.main_gpu.unwrap_or(DEFAULT_MAIN_GPU)),
            f16_kv: Some(self.f16_kv.unwrap_or(DEFAULT_F16_KV)),
            logits_all: Some(self.logits_all.unwrap_or(DEFAULT_LOGITS_ALL)),
            vocab_only: Some(self.vocab_only.unwrap_or(DEFAULT_VOCAB_ONLY)),
            use_mlock: Some(self.use_mlock.unwrap_or(DEFAULT_USE_MLOCK)),
            embedding: Some(self.embedding.unwrap_or(DEFAULT_EMBEDDING)),
            use_mmap: Some(self.use_mmap.unwrap_or(DEFAULT_USE_MMAP)),
            n_batch: Some(self.n_batch.unwrap_or(DEFAULT_N_BATCH)),
            n_gqa: Some(self.n_gqa.unwrap_or(DEFAULT_N_GQA)),
            rope_freq_base,
            rope_freq_scale,
            rms_norm_eps,
            ..self
        }
    }

    /// Translates the configuration, omitted fields read as their defaults,
    /// into the engine's context parameter record. Fails, before anything
    /// is built, on the first integer that its native field cannot hold.
    pub fn to_llama_context_params(params: &ModelLoad) -> (r: Result<ContextParams, ConfigTranslationError>)
        ensures
            params.first_unrepresentable() is None ==> r == Ok::<ContextParams, ConfigTranslationError>(params.native()),
            params.first_unrepresentable() is Some ==> r == Err::<ContextParams, ConfigTranslationError>(params.first_unrepresentable().unwrap()),
    {
        let n_ctx = match narrow_i32(params.n_ctx.unwrap_or(DEFAULT_N_CTX), ContextField::NCtx) {
            Ok(v) => v,
            Err(e) => return Err(e),
        };
        let n_gpu_layers = match narrow_i32(params.n_gpu_layers.unwrap_or(DEFAULT_N_GPU_LAYERS), ContextField::NGpuLayers) {
            Ok(v) => v,
            Err(e) => return Err(e),
        };
        let seed = match narrow_u32(params.seed.unwrap_or(DEFAULT_SEED), ContextField::Seed) {
            Ok(v) => v,
            Err(e) => return Err(e),
        };
        let main_gpu = match narrow_i32(params.main_gpu.unwrap_or(DEFAULT_MAIN_GPU), ContextField::MainGpu) {
            Ok(v) => v,
            Err(e) => return Err(e),
        };
        let n_batch = match narrow_i32(params.n_batch.unwrap_or(DEFAULT_N_BATCH), ContextField::NBatch) {
            Ok(v) => v,
            Err(e) => return Err(e),
        };
        let n_gqa = match narrow_i32(params.n_gqa.unwrap_or(DEFAULT_N_GQA), ContextField::NGqa) {
            Ok(v) => v,
            Err(e) => return Err(e),
        };
        Ok(ContextParams {
            seed,
            n_ctx,
            n_batch,
            n_gqa,
            rms_norm_eps: fill_f32(params.rms_norm_eps, DEFAULT_RMS_NORM_EPS).unwrap(),
            n_gpu_layers,
            main_gpu,
            rope_freq_base: fill_f32(params.rope_freq_base, DEFAULT_ROPE_FREQ_BASE).unwrap(),
            rope_freq_scale: fill_f32(params.rope_freq_scale, DEFAULT_ROPE_FREQ_SCALE).unwrap(),
            low_vram: params.low_vram.unwrap_or(DEFAULT_LOW_VRAM),
            mul_mat_q: params.mul_mat_q.unwrap_or(DEFAULT_MUL_MAT_Q),
            f16_kv: params.f16_kv.unwrap_or(DEFAULT_F16_KV),
            logits_all: params.logits_all.unwrap_or(DEFAULT_LOGITS_ALL),
            vocab_only: params.vocab_only.unwrap_or(DEFAULT_VOCAB_ONLY),
            use_mmap: params.use_mmap.unwrap_or(DEFAULT_USE_MMAP),
            use_mlock: params.use_mlock.unwrap_or(DEFAULT_USE_MLOCK),
            embedding: params.embedding.unwrap_or(DEFAULT_EMBEDDING),
        })
    }
}

impl Default for ModelLoad {
    /// Every field at its default, with an empty model path.
    fn default() -> (r: ModelLoad)
        ensures
            r.model_path@.len() == 0,
            r == ModelLoad::omitted(r.model_path).with_defaults(),
    {
        ModelLoad::new(String::new()).defaulted()
    }
}

fn fill_f32(v: Option<F32Bits>, bits: u32) -> (r: Option<F32Bits>)
    ensures
        r == Some(or_f32(v, bits)),
{
    match v {
        Some(x) => Some(x),
        None => Some(F32Bits { bits }),
    }
}

/// Narrows `v` to 32 signed bits, or names `field` as the one that cannot hold it.
fn narrow_i32(v: i64, field: ContextField) -> (r: Result<i32, ConfigTranslationError>)
    ensures
        fits_i32(v) ==> r == Ok::<i32, ConfigTranslationError>(v as i32),
        !fits_i32(v) ==> r == Err::<i32, ConfigTranslationError>(ConfigTranslationError { field, value: v }),
{
    if v < i32::MIN as i64 || v > i32::MAX as i64 {
        Err(ConfigTranslationError { field, value: v })
    } else {
        Ok(v as i32)
    }
}

/// Narrows `v` to 32 unsigned bits, or names `field` as the one that cannot hold it.
fn narrow_u32(v: i64, field: ContextField) -> (r: Result<u32, ConfigTranslationError>)
    ensures
        fits_u32(v) ==> r == Ok::<u32, ConfigTranslationError>(v as u32),
        !fits_u32(v) ==> r == Err::<u32, ConfigTranslationError>(ConfigTranslationError { field, value: v }),
{
    if v < 0 || v > u32::MAX as i64 {
        Err(ConfigTranslationError { field, value: v })
    } else {
        Ok(v as u32)
    }
}

impl ContextParams {
    /// The fully populated configuration that the record's fields read back
    /// as, widened to the host's types, with the given path and adapter.
    pub open spec fn read_back(self, model_path: String, lora: Option<LlamaLoraAdaptor>) -> ModelLoad {
        ModelLoad {
            model_path,
            n_ctx: Some(self.n_ctx as i64),
            n_gpu_layers: Some(self.n_gpu_layers as i64),
            seed: Some(self.seed as i64),
            low_vram: Some(self.low_vram),
            mul_mat_q: Some(self.mul_mat_q),
            main_gpu: Some(self.main_gpu as i64),
            f16_kv: Some(self.f16_kv),
            logits_all: Some(self.logits_all),
            vocab_only: Some(self.vocab_only),
            use_mlock: Some(self.use_mlock),
            embedding: Some(self.embedding),
            use_mmap: Some(self.use_mmap),
            n_batch: Some(self.n_batch as i64),
            n_gqa: Some(self.n_gqa as i64),
            rope_freq_base: Some(self.rope_freq_base),
            rope_freq_scale: Some(self.rope_freq_scale),
            rms_norm_eps: Some(self.rms_norm_eps),
            lora,
        }
    }
}

/// Every omitted field of a configuration comes out of defaulting as its
/// documented default, and every given field comes out unchanged.
pub proof fn lemma_omitted_fields_take_defaults(x: ModelLoad)
    ensures
        x.with_defaults().model_path == x.model_path,
        x.with_defaults().lora == x.lora,
        x.n_ctx is None ==> x.with_defaults().n_ctx == Some(2048i64),
        x.n_gpu_layers is None ==> x.with_defaults().n_gpu_layers == Some(0i64),
        x.seed is None ==> x.with_defaults().seed == Some(0i64),
        x.low_vram is None ==> x.with_defaults().low_vram == Some(false),
        x.mul_mat_q is None ==> x.with_defaults().mul_mat_q == Some(false),
        x.main_gpu is None ==> x.with_defaults().main_gpu == Some(0i64),
        x.f16_kv is None ==> x.with_defaults().f16_kv == Some(true),
        x.logits_all is None ==> x.with_defaults().logits_all == Some(false),
        x.vocab_only is None ==> x.with_defaults().vocab_only == Some(false),
        x.use_mlock is None ==> x.with_defaults().use_mlock == Some(false),
        x.embedding is None ==> x.with_defaults().embedding == Some(false),
        x.use_mmap is None ==> x.with_defaults().use_mmap == Some(true),
        x.n_batch is None ==> x.with_defaults().n_batch == Some(512i64),
        x.n_gqa is None ==> x.with_defaults().n_gqa == Some(1i64),
        x.rope_freq_base is None ==> x.with_defaults().rope_freq_base == Some(F32Bits { bits: DEFAULT_ROPE_FREQ_BASE }),
        x.rope_freq_scale is None ==> x.with_defaults().rope_freq_scale == Some(F32Bits { bits: DEFAULT_ROPE_FREQ_SCALE }),
        x.rms_norm_eps is None ==> x.with_defaults().rms_norm_eps == Some(F32Bits { bits: DEFAULT_RMS_NORM_EPS }),
        x.n_ctx is Some ==> x.with_defaults().n_ctx == x.n_ctx,
        x.n_gpu_layers is Some ==> x.with_defaults().n_gpu_layers == x.n_gpu_layers,
        x.seed is Some ==> x.with_defaults().seed == x.seed,
        x.low_vram is Some ==> x.with_defaults().low_vram == x.low_vram,
        x.mul_mat_q is Some ==> x.with_defaults().mul_mat_q == x.mul_mat_q,
        x.main_gpu is Some ==> x.with_defaults().main_gpu == x.main_gpu,
        x.f16_kv is Some ==> x.with_defaults().f16_kv == x.f16_kv,
        x.logits_all is Some ==> x.with_defaults().logits_all == x.logits_all,
        x.vocab_only is Some ==> x.with_defaults().vocab_only == x.vocab_only,
        x.use_mlock is Some ==> x.with_defaults().use_mlock == x.use_mlock,
        x.embedding is Some ==> x.with_defaults().embedding == x.embedding,
        x.use_mmap is Some ==> x.with_defaults().use_mmap == x.use_mmap,
        x.n_batch is Some ==> x.with_defaults().n_batch == x.n_batch,
        x.n_gqa is Some ==> x.with_defaults().n_gqa == x.n_gqa,
        x.rope_freq_base is Some ==> x.with_defaults().rope_freq_base == x.rope_freq_base,
        x.rope_freq_scale is Some ==> x.with_defaults().rope_freq_scale == x.rope_freq_scale,
        x.rms_norm_eps is Some ==> x.with_defaults().rms_norm_eps == x.rms_norm_eps,
{
}

/// Defaulting twice gives what defaulting once gives.
pub proof fn lemma_defaulted_idempotent(x: ModelLoad)
    ensures
        x.with_defaults().with_defaults() == x.with_defaults(),
{
}

/// Translation reads an omitted field as its default: a configuration and
/// its defaulted form fail alike, or translate to the same record.
pub proof fn lemma_translation_sees_defaults(x: ModelLoad)
    ensures
        x.with_defaults().first_unrepresentable() == x.first_unrepresentable(),
        x.with_defaults().native() == x.native(),
{
}

/// Round trip: when translation succeeds, the record's fields read back as
/// exactly the defaulted configuration.
pub proof fn lemma_round_trip(x: ModelLoad)
    requires
        x.first_unrepresentable() is None,
    ensures
        x.native().read_back(x.model_path, x.lora) == x.with_defaults(),
{
}

/// Translation is injective: two configurations that both translate, and
/// whose defaulted forms differ in a field, give records that differ in
/// that field.
pub proof fn lemma_translation_injective(a: ModelLoad, b: ModelLoad)
    requires
        a.first_unrepresentable() is None,
        b.first_unrepresentable() is None,
    ensures
        a.with_defaults().n_ctx != b.with_defaults().n_ctx ==> a.native().n_ctx != b.native().n_ctx,
        a.with_defaults().n_gpu_layers != b.with_defaults().n_gpu_layers ==> a.native().n_gpu_layers != b.native().n_gpu_layers,
        a.with_defaults().seed != b.with_defaults().seed ==> a.native().seed != b.native().seed,
        a.with_defaults().low_vram != b.with_defaults().low_vram ==> a.native().low_vram != b.native().low_vram,
        a.with_defaults().mul_mat_q != b.with_defaults().mul_mat_q ==> a.native().mul_mat_q != b.native().mul_mat_q,
        a.with_defaults().main_gpu != b.with_defaults().main_gpu ==> a.native().main_gpu != b.native().main_gpu,
        a.with_defaults().f16_kv != b.with_defaults().f16_kv ==> a.native().f16_kv != b.native().f16_kv,
        a.with_defaults().logits_all != b.with_defaults().logits_all ==> a.native().logits_all != b.native().logits_all,
        a.with_defaults().vocab_only != b.with_defaults().vocab_only ==> a.native().vocab_only != b.native().vocab_only,
        a.with_defaults().use_mlock != b.with_defaults().use_mlock ==> a.native().use_mlock != b.native().use_mlock,
        a.with_defaults().embedding != b.with_defaults().embedding ==> a.native().embedding != b.native().embedding,
        a.with_defaults().use_mmap != b.with_defaults().use_mmap ==> a.native().use_mmap != b.native().use_mmap,
        a.with_defaults().n_batch != b.with_defaults().n_batch ==> a.native().n_batch != b.native().n_batch,
        a.with_defaults().n_gqa != b.with_defaults().n_gqa ==> a.native().n_gqa != b.native().n_gqa,
        a.with_defaults().rope_freq_base != b.with_defaults().rope_freq_base ==> a.native().rope_freq_base != b.native().rope_freq_base,
        a.with_defaults().rope_freq_scale != b.with_defaults().rope_freq_scale ==> a.native().rope_freq_scale != b.native().rope_freq_scale,
        a.with_defaults().rms_norm_eps != b.with_defaults().rms_norm_eps ==> a.native().rms_norm_eps != b.native().rms_norm_eps,
{
    lemma_round_trip(a);
    lemma_round_trip(b);
}

} // verus!
