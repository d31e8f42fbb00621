//! User-facing model configurations, one per model family.
//!
//! Threshold and score fields that the engine takes as fractional seconds or
//! fractional weights are held here as integers in milli-units (milliseconds,
//! thousandths of a weight); the host program scales them when it fills the
//! engine's C structures.

use vstd::prelude::*;
use vstd::string::*;

verus! {

/// Configuration for the single-file paraformer family (batch decoding).
#[derive(Debug, Clone)]
pub struct ParaformerConfig {
    pub model: String,
    pub tokens: String,
    pub provider: Option<String>,
    pub num_threads: Option<i32>,
    pub debug: bool,
}

impl Default for ParaformerConfig {
    fn default() -> (c: Self)
        ensures
            c.model@ == Seq::<char>::empty(),
            c.tokens@ == Seq::<char>::empty(),
            c.provider is None,
            c.num_threads == Some(1i32),
            c.debug == false,
    {
        ParaformerConfig {
            model: String::new(),
            tokens: String::new(),
            provider: None,
            num_threads: Some(1),
            debug: false,
        }
    }
}

/// A paraformer configuration names every file its family requires.
pub open spec fn paraformer_config_complete(c: ParaformerConfig) -> bool {
    c.model@.len() > 0 && c.tokens@.len() > 0
}

impl ParaformerConfig {
    /// Whether every required family field is filled in.
    pub fn is_complete(&self) -> (b: bool)
        ensures
            b == paraformer_config_complete(*self),
    {
        self.model.as_str().unicode_len() > 0 && self.tokens.as_str().unicode_len() > 0
    }
}

/// Configuration for the streaming transducer family (encoder, decoder and
/// joiner model files), with the streaming endpoint rules exposed.
///
/// `rule1_min_trailing_silence` and `rule2_min_trailing_silence` are in
/// milliseconds of trailing silence; `rule3_min_utterance_length` is in
/// milliseconds of utterance length. `hotwords_score` and `blank_penalty`
/// are weights in thousandths.
#[derive(Debug, Clone)]
pub struct OnlineTransducerConfig {
    pub decoder: String,
    pub encoder: String,
    pub joiner: String,
    pub tokens: String,
    pub num_threads: i32,
    pub sample_rate: i32,
    pub feature_dim: i32,
    pub decoding_method: String,
    pub hotwords_file: String,
    pub hotwords_score: i32,
    pub modeling_unit: String,
    pub bpe_vocab: String,
    pub blank_penalty: i32,
    pub model_type: String,
    pub debug: bool,
    pub provider: Option<String>,
    pub enable_endpoint: bool,
    pub rule1_min_trailing_silence: u32,
    pub rule2_min_trailing_silence: u32,
    pub rule3_min_utterance_length: u32,
    pub max_active_paths: i32,
}

impl Default for OnlineTransducerConfig {
    fn default() -> (c: Self)
        ensures
            c.decoder@ == Seq::<char>::empty(),
            c.encoder@ == Seq::<char>::empty(),
            c.joiner@ == Seq::<char>::empty(),
            c.tokens@ == Seq::<char>::empty(),
            c.num_threads == 1i32,
            c.sample_rate == 16000i32,
            c.feature_dim == 80i32,
            c.decoding_method@ == "greedy_search"@,
            c.hotwords_file@ == Seq::<char>::empty(),
            c.hotwords_score == 1000i32,
            c.modeling_unit@ == Seq::<char>::empty(),
            c.bpe_vocab@ == Seq::<char>::empty(),
            c.blank_penalty == 0i32,
            c.model_type@ == "transducer"@,
            c.debug == false,
            c.provider is None,
            c.enable_endpoint == true,
            c.rule1_min_trailing_silence == 2400u32,
            c.rule2_min_trailing_silence == 1200u32,
            c.rule3_min_utterance_length == 20000u32,
            c.max_active_paths == 4i32,
    {
        OnlineTransducerConfig {
            decoder: String::new(),
            encoder: String::new(),
            joiner: String::new(),
            tokens: String::new(),
            num_threads: 1,
            sample_rate: 16000,
            feature_dim: 80,
            decoding_method: String::from_str("greedy_search"),
            hotwords_file: String::new(),
            hotwords_score: 1000,
            modeling_unit: String::new(),
            bpe_vocab: String::new(),
            blank_penalty: 0,
            model_type: String::from_str("transducer"),
            debug: false,
            provider: None,
            enable_endpoint: true,
            rule1_min_trailing_silence: 2400,
            rule2_min_trailing_silence: 1200,
            rule3_min_utterance_length: 20000,
            max_active_paths: 4,
        }
    }
}

/// A transducer configuration names every file its family requires.
pub open spec fn transducer_config_complete(c: OnlineTransducerConfig) -> bool {
    c.encoder@.len() > 0 && c.decoder@.len() > 0 && c.joiner@.len() > 0 && c.tokens@.len() > 0
}

impl OnlineTransducerConfig {
    /// Whether every required family field is filled in.
    pub fn is_complete(&self) -> (b: bool)
        ensures
            b == transducer_config_complete(*self),
    {
        self.encoder.as_str().unicode_len() > 0 && self.decoder.as_str().unicode_len() > 0
            && self.joiner.as_str().unicode_len() > 0 && self.tokens.as_str().unicode_len() > 0
    }
}

/// Configuration for the streaming zipformer transducer family; optional
/// fields fall back to the layer's defaults at translation time.
#[derive(Debug, Clone)]
pub struct ZipFormerOnlineConfig {
    pub decoder: String,
    pub encoder: String,
    pub joiner: String,
    pub tokens: String,
    pub num_threads: Option<i32>,
    pub provider: Option<String>,
    pub debug: bool,
    pub sample_rate: Option<i32>,
    pub feature_dim: Option<i32>,
    pub decoding_method: Option<String>,
}

impl Default for ZipFormerOnlineConfig {
    fn default() -> (c: Self)
        ensures
            c.decoder@ == Seq::<char>::empty(),
            c.encoder@ == Seq::<char>::empty(),
            c.joiner@ == Seq::<char>::empty(),
            c.tokens@ == Seq::<char>::empty(),
            c.num_threads is None,
            c.provider is None,
            c.debug == false,
            c.sample_rate is None,
            c.feature_dim is None,
            c.decoding_method is None,
    {
        ZipFormerOnlineConfig {
            decoder: String::new(),
            encoder: String::new(),
            joiner: String::new(),
            tokens: String::new(),
            num_threads: None,
            provider: None,
            debug: false,
            sample_rate: None,
            feature_dim: None,
            decoding_method: None,
        }
    }
}

/// A zipformer configuration names every file its family requires.
pub open spec fn zipformer_config_complete(c: ZipFormerOnlineConfig) -> bool {
    c.encoder@.len() > 0 && c.decoder@.len() > 0 && c.joiner@.len() > 0 && c.tokens@.len() > 0
}

impl ZipFormerOnlineConfig {
    /// Whether every required family field is filled in.
    pub fn is_complete(&self) -> (b: bool)
        ensures
            b == zipformer_config_complete(*self),
    {
        self.encoder.as_str().unicode_len() > 0 && self.decoder.as_str().unicode_len() > 0
            && self.joiner.as_str().unicode_len() > 0 && self.tokens.as_str().unicode_len() > 0
    }
}

} // verus!
