//! Sampling configuration for one generation call, and its defaults.
use vstd::prelude::*;
use crate::bits::F64Bits;

verus! {

/// Top-k sampling: keep the 40 most likely tokens (`<= 0` means the vocabulary size).
pub const DEFAULT_TOP_K: i32 = 40;
/// Top-p sampling: 0.95.
pub const DEFAULT_TOP_P: u64 = 0x3FEE_6666_6666_6666;
/// Tail-free sampling: 1.0, disabled.
pub const DEFAULT_TFS_Z: u64 = 0x3FF0_0000_0000_0000;
/// Temperature: 0.80.
pub const DEFAULT_TEMP: u64 = 0x3FE9_9999_9999_999A;
/// Locally typical sampling: 1.0, disabled.
pub const DEFAULT_TYPICAL_P: u64 = 0x3FF0_0000_0000_0000;
/// Repeat penalty: 1.10.
pub const DEFAULT_REPEAT_PENALTY: u64 = 0x3FF1_9999_9999_999A;
/// Window of recent tokens to penalize: 64 (0 disables, -1 means the context size).
pub const DEFAULT_REPEAT_LAST_N: i32 = 64;
/// Frequency penalty: 0.0.
pub const DEFAULT_FREQUENCY_PENALTY: u64 = 0;
/// Presence penalty: 0.0.
pub const DEFAULT_PRESENCE_PENALTY: u64 = 0;
/// Mirostat mode: 0, disabled (1 and 2 select the two versions).
pub const DEFAULT_MIROSTAT: i32 = 0;
/// Mirostat target entropy: 5.0.
pub const DEFAULT_MIROSTAT_TAU: u64 = 0x4014_0000_0000_0000;
/// Mirostat learning rate: 0.1.
pub const DEFAULT_MIROSTAT_ETA: u64 = 0x3FB9_9999_9999_999A;
/// Newlines are penalized like any other token.
pub const DEFAULT_PENALIZE_NL: bool = true;

/// An additive adjustment to one token's score before sampling.
#[derive(Clone, Copy, Debug, PartialEq, Eq, Structural)]
pub struct LogitBias {
    pub token: i32,
    pub bias: F64Bits,
}

/// Sampling and decoding configuration for one generation call. Every
/// tunable but the prompt may be omitted (`None`), which stands for the
/// engine's default; `defaulted` fills those in.
#[derive(Clone, Debug)]
pub struct Generate {
    pub n_threads: i32,
    pub n_tok_predict: i32,
    pub logit_bias: Option<Vec<LogitBias>>,
    pub top_k: Option<i32>,
    pub top_p: Option<F64Bits>,
    pub tfs_z: Option<F64Bits>,
    pub temp: Option<F64Bits>,
    pub typical_p: Option<F64Bits>,
    pub repeat_penalty: Option<F64Bits>,
    pub repeat_last_n: Option<i32>,
    pub frequency_penalty: Option<F64Bits>,
    pub presence_penalty: Option<F64Bits>,
    pub mirostat: Option<i32>,
    pub mirostat_tau: Option<F64Bits>,
    pub mirostat_eta: Option<F64Bits>,
    pub stop_sequence: Option<String>,
    pub penalize_nl: Option<bool>,
    pub prompt: String,
}

/// `v` when present, else a value of the given bit pattern.
pub open spec fn or_f64(v: Option<F64Bits>, bits: u64) -> F64Bits {
    match v {
        Some(x) => x,
        None => F64Bits { bits },
    }
}

impl Generate {
    /// The request with every omitted tunable replaced by its default. The
    /// logit-bias list and the stop sequence have no default: they stay
    /// as given.
    pub open spec fn with_defaults(self) -> Generate {
        Generate {
            top_k: Some(self.top_k.unwrap_or(DEFAULT_TOP_K)),
            top_p: Some(or_f64(self.top_p, DEFAULT_TOP_P)),
            tfs_z: Some(or_f64(self.tfs_z, DEFAULT_TFS_Z)),
            temp: Some(or_f64(self.temp, DEFAULT_TEMP)),
            typical_p: Some(or_f64(self.typical_p, DEFAULT_TYPICAL_P)),
            repeat_penalty: Some(or_f64(self.repeat_penalty, DEFAULT_REPEAT_PENALTY)),
            repeat_last_n: Some(self.repeat_last_n.unwrap_or(DEFAULT_REPEAT_LAST_N)),
            frequency_penalty: Some(or_f64(self.frequency_penalty, DEFAULT_FREQUENCY_PENALTY)),
            presence_penalty: Some(or_f64(self.presence_penalty, DEFAULT_PRESENCE_PENALTY)),
            mirostat: Some(self.mirostat.unwrap_or(DEFAULT_MIROSTAT)),
            mirostat_tau: Some(or_f64(self.mirostat_tau, DEFAULT_MIROSTAT_TAU)),
            mirostat_eta: Some(or_f64(self.mirostat_eta, DEFAULT_MIROSTAT_ETA)),
            penalize_nl: Some(self.penalize_nl.unwrap_or(DEFAULT_PENALIZE_NL)),
            ..self
        }
    }

    /// Fills in every omitted tunable with its default; given values, the
    /// prompt and the other fields are kept.
    pub fn defaulted(self) -> (r: Generate)
        ensures
            r == self.with_defaults(),
    {
        let top_p = fill_f64(self.top_p, DEFAULT_TOP_P);
        let tfs_z = fill_f64(self.tfs_z, DEFAULT_TFS_Z);
        let temp = fill_f64(self.temp, DEFAULT_TEMP);
        let typical_p = fill_f64(self.typical_p, DEFAULT_TYPICAL_P);
        let repeat_penalty = fill_f64(self.repeat_penalty, DEFAULT_REPEAT_PENALTY);
        let frequency_penalty = fill_f64(self.frequency_penalty, DEFAULT_FREQUENCY_PENALTY);
        let presence_penalty = fill_f64(self.presence_penalty, DEFAULT_PRESENCE_PENALTY);
        let mirostat_tau = fill_f64(self.mirostat_tau, DEFAULT_MIROSTAT_TAU);
        let mirostat_eta = fill_f64(self.mirostat_eta, DEFAULT_MIROSTAT_ETA);
        Generate {
            top_k: Some(self.top_k.unwrap_or(DEFAULT_TOP_K)),
            top_p,
            tfs_z,
            temp,
            typical_p,
            repeat_penalty,
            repeat_last_n: Some(self.repeat_last_n.unwrap_or(DEFAULT_REPEAT_LAST_N)),
            frequency_penalty,
            presence_penalty,
            mirostat: Some(self.mirostat.unwrap_or(DEFAULT_MIROSTAT)),
            mirostat_tau,
            mirostat_eta,
            penalize_nl: Some(self.penalize_nl.unwrap_or(DEFAULT_PENALIZE_NL)),
            ..self
        }
    }
}

fn fill_f64(v: Option<F64Bits>, bits: u64) -> (r: Option<F64Bits>)
    ensures
        r == Some(or_f64(v, bits)),
{
    match v {
        Some(x) => Some(x),
        None => Some(F64Bits { bits }),
    }
}

/// Every omitted tunable of a request comes out of defaulting as its
/// documented default, and every given one comes out unchanged; the prompt,
/// the thread and token counts, the logit biases and the stop sequence are
/// kept.
pub proof fn lemma_omitted_tunables_take_defaults(x: Generate)
    ensures
        x.with_defaults().prompt == x.prompt,
        x.with_defaults().n_threads == x.n_threads,
        x.with_defaults().n_tok_predict == x.n_tok_predict,
        x.with_defaults().logit_bias == x.logit_bias,
        x.with_defaults().stop_sequence == x.stop_sequence,
        x.top_k is None ==> x.with_defaults().top_k == Some(40i32),
        x.top_p is None ==> x.with_defaults().top_p == Some(F64Bits { bits: DEFAULT_TOP_P }),
        x.tfs_z is None ==> x.with_defaults().tfs_z == Some(F64Bits { bits: DEFAULT_TFS_Z }),
        x.temp is None ==> x.with_defaults().temp == Some(F64Bits { bits: DEFAULT_TEMP }),
        x.typical_p is None ==> x.with_defaults().typical_p == Some(F64Bits { bits: DEFAULT_TYPICAL_P }),
        x.repeat_penalty is None ==> x.with_defaults().repeat_penalty == Some(F64Bits { bits: DEFAULT_REPEAT_PENALTY }),
        x.repeat_last_n is None ==> x.with_defaults().repeat_last_n == Some(64i32),
        x.frequency_penalty is None ==> x.with_defaults().frequency_penalty == Some(F64Bits { bits: 0 }),
        x.presence_penalty is None ==> x.with_defaults().presence_penalty == Some(F64Bits { bits: 0 }),
        x.mirostat is None ==> x.with_defaults().mirostat == Some(0i32),
        x.mirostat_tau is None ==> x.with_defaults().mirostat_tau == Some(F64Bits { bits: DEFAULT_MIROSTAT_TAU }),
        x.mirostat_eta is None ==> x.with_defaults().mirostat_eta == Some(F64Bits { bits: DEFAULT_MIROSTAT_ETA }),
        x.penalize_nl is None ==> x.with_defaults().penalize_nl == Some(true),
        x.top_k is Some ==> x.with_defaults().top_k == x.top_k,
        x.top_p is Some ==> x.with_defaults().top_p == x.top_p,
        x.tfs_z is Some ==> x.with_defaults().tfs_z == x.tfs_z,
        x.temp is Some ==> x.with_defaults().temp == x.temp,
        x.typical_p is Some ==> x.with_defaults().typical_p == x.typical_p,
        x.repeat_penalty is Some ==> x.with_defaults().repeat_penalty == x.repeat_penalty,
        x.repeat_last_n is Some ==> x.with_defaults().repeat_last_n == x.repeat_last_n,
        x.frequency_penalty is Some ==> x.with_defaults().frequency_penalty == x.frequency_penalty,
        x.presence_penalty is Some ==> x.with_defaults().presence_penalty == x.presence_penalty,
        x.mirostat is Some ==> x.with_defaults().mirostat == x.mirostat,
        x.mirostat_tau is Some ==> x.with_defaults().mirostat_tau == x.mirostat_tau,
        x.mirostat_eta is Some ==> x.with_defaults().mirostat_eta == x.mirostat_eta,
        x.penalize_nl is Some ==> x.with_defaults().penalize_nl == x.penalize_nl,
{
}

/// Defaulting a request twice gives what defaulting it once gives.
pub proof fn lemma_generate_defaulted_idempotent(x: Generate)
    ensures
        x.with_defaults().with_defaults() == x.with_defaults(),
{
}

} // verus!
