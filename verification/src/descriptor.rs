//! Engine-shaped descriptors.
//!
//! These mirror, as plain values, the C structures the engine's constructors
//! take. Every model-family slot is present in every descriptor; a slot that
//! the selected family does not use carries the explicit absent value (empty
//! strings, zero numbers) rather than arbitrary contents — the engine
//! inspects the unused slots, so zero-filling them is a correctness
//! requirement of translation, not a convention. The host program turns an
//! empty string into the engine's null pointer and scales the milli-unit
//! integers to the fractional values the C interface takes.

use vstd::prelude::*;

verus! {

/// Feature extraction settings shared by every family.
#[derive(Debug, Clone)]
pub struct FeatureDescriptor {
    pub sample_rate: i32,
    pub feature_dim: i32,
}

/// Batch transducer model files.
#[derive(Debug, Clone)]
pub struct OfflineTransducerSlot {
    pub encoder: String,
    pub decoder: String,
    pub joiner: String,
}

impl OfflineTransducerSlot {
    /// The slot carries the engine's explicit absent value.
    pub open spec fn is_absent(self) -> bool {
        self.encoder@.len() == 0 && self.decoder@.len() == 0 && self.joiner@.len() == 0
    }
}

/// Batch paraformer model file.
#[derive(Debug, Clone)]
pub struct OfflineParaformerSlot {
    pub model: String,
}

/// Batch NeMo CTC model file.
#[derive(Debug, Clone)]
pub struct OfflineNemoCtcSlot {
    pub model: String,
}

/// Batch TDNN model file.
#[derive(Debug, Clone)]
pub struct OfflineTdnnSlot {
    pub model: String,
}

/// Batch whisper model files and options.
#[derive(Debug, Clone)]
pub struct OfflineWhisperSlot {
    pub encoder: String,
    pub decoder: String,
    pub language: String,
    pub task: String,
    pub tail_paddings: i32,
}

impl OfflineWhisperSlot {
    /// The slot carries the engine's explicit absent value.
    pub open spec fn is_absent(self) -> bool {
        self.encoder@.len() == 0 && self.decoder@.len() == 0 && self.language@.len() == 0
            && self.task@.len() == 0 && self.tail_paddings == 0
    }
}

/// Batch fire-red ASR model files.
#[derive(Debug, Clone)]
pub struct OfflineFireRedAsrSlot {
    pub encoder: String,
    pub decoder: String,
}

impl OfflineFireRedAsrSlot {
    /// The slot carries the engine's explicit absent value.
    pub open spec fn is_absent(self) -> bool {
        self.encoder@.len() == 0 && self.decoder@.len() == 0
    }
}

/// Batch sense-voice model file and options.
#[derive(Debug, Clone)]
pub struct OfflineSenseVoiceSlot {
    pub model: String,
    pub language: String,
    pub use_itn: bool,
}

impl OfflineSenseVoiceSlot {
    /// The slot carries the engine's explicit absent value.
    pub open spec fn is_absent(self) -> bool {
        self.model@.len() == 0 && self.language@.len() == 0 && !self.use_itn
    }
}

/// Batch moonshine model files.
#[derive(Debug, Clone)]
pub struct OfflineMoonshineSlot {
    pub preprocessor: String,
    pub encoder: String,
    pub uncached_decoder: String,
    pub cached_decoder: String,
}

impl OfflineMoonshineSlot {
    /// The slot carries the engine's explicit absent value.
    pub open spec fn is_absent(self) -> bool {
        self.preprocessor@.len() == 0 && self.encoder@.len() == 0
            && self.uncached_decoder@.len() == 0 && self.cached_decoder@.len() == 0
    }
}

/// Batch dolphin model file.
#[derive(Debug, Clone)]
pub struct OfflineDolphinSlot {
    pub model: String,
}

/// The engine's batch model configuration: one slot per family, plus the
/// shared fields.
#[derive(Debug, Clone)]
pub struct OfflineModelDescriptor {
    pub transducer: OfflineTransducerSlot,
    pub paraformer: OfflineParaformerSlot,
    pub nemo_ctc: OfflineNemoCtcSlot,
    pub whisper: OfflineWhisperSlot,
    pub tdnn: OfflineTdnnSlot,
    pub sense_voice: OfflineSenseVoiceSlot,
    pub moonshine: OfflineMoonshineSlot,
    pub fire_red_asr: OfflineFireRedAsrSlot,
    pub dolphin: OfflineDolphinSlot,
    pub telespeech_ctc: String,
    pub tokens: String,
    pub num_threads: i32,
    pub debug: bool,
    pub provider: String,
    pub model_type: String,
    pub modeling_unit: String,
    pub bpe_vocab: String,
}

/// Language-model rescoring slot; `scale` is a weight in thousandths.
#[derive(Debug, Clone)]
pub struct LmSlot {
    pub model: String,
    pub scale: i32,
}

/// The engine's batch recognizer configuration. `hotwords_score` and
/// `blank_penalty` are weights in thousandths.
#[derive(Debug, Clone)]
pub struct OfflineRecognizerDescriptor {
    pub feat: FeatureDescriptor,
    pub model: OfflineModelDescriptor,
    pub lm: LmSlot,
    pub decoding_method: String,
    pub max_active_paths: i32,
    pub hotwords_file: String,
    pub hotwords_score: i32,
    pub rule_fsts: String,
    pub rule_fars: String,
    pub blank_penalty: i32,
}

/// Streaming transducer model files.
#[derive(Debug, Clone)]
pub struct OnlineTransducerSlot {
    pub encoder: String,
    pub decoder: String,
    pub joiner: String,
}

/// Streaming paraformer model files.
#[derive(Debug, Clone)]
pub struct OnlineParaformerSlot {
    pub encoder: String,
    pub decoder: String,
}

impl OnlineParaformerSlot {
    /// The slot carries the engine's explicit absent value.
    pub open spec fn is_absent(self) -> bool {
        self.encoder@.len() == 0 && self.decoder@.len() == 0
    }
}

/// Streaming zipformer CTC model file.
#[derive(Debug, Clone)]
pub struct OnlineZipformer2CtcSlot {
    pub model: String,
}

/// Streaming NeMo CTC model file.
#[derive(Debug, Clone)]
pub struct OnlineNemoCtcSlot {
    pub model: String,
}

/// The engine's streaming model configuration: one slot per family, plus the
/// shared fields. `tokens_buf_size` is 0 whenever the in-memory token buffer
/// is absent.
#[derive(Debug, Clone)]
pub struct OnlineModelDescriptor {
    pub transducer: OnlineTransducerSlot,
    pub paraformer: OnlineParaformerSlot,
    pub zipformer2_ctc: OnlineZipformer2CtcSlot,
    pub nemo_ctc: OnlineNemoCtcSlot,
    pub tokens: String,
    pub num_threads: i32,
    pub provider: String,
    pub debug: bool,
    pub model_type: String,
    pub modeling_unit: String,
    pub bpe_vocab: String,
    pub tokens_buf_size: i32,
}

/// CTC FST decoder slot of the streaming recognizer configuration.
#[derive(Debug, Clone)]
pub struct CtcFstDecoderSlot {
    pub graph: String,
    pub max_active: i32,
}

impl CtcFstDecoderSlot {
    /// The slot carries the engine's explicit absent value.
    pub open spec fn is_absent(self) -> bool {
        self.graph@.len() == 0 && self.max_active == 0
    }
}

/// The engine's streaming recognizer configuration.
///
/// The two trailing-silence rules are in milliseconds of silence, the
/// utterance-length rule in milliseconds of utterance; `hotwords_score` and
/// `blank_penalty` are weights in thousandths. `hotwords_buf_size` is 0
/// whenever the in-memory hotword buffer is absent.
#[derive(Debug, Clone)]
pub struct OnlineRecognizerDescriptor {
    pub feat: FeatureDescriptor,
    pub model: OnlineModelDescriptor,
    pub decoding_method: String,
    pub max_active_paths: i32,
    pub enable_endpoint: bool,
    pub rule1_min_trailing_silence: u32,
    pub rule2_min_trailing_silence: u32,
    pub rule3_min_utterance_length: u32,
    pub hotwords_file: String,
    pub hotwords_score: i32,
    pub ctc_fst_decoder: CtcFstDecoderSlot,
    pub rule_fsts: String,
    pub rule_fars: String,
    pub blank_penalty: i32,
    pub hotwords_buf_size: i32,
}

} // verus!
