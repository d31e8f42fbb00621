//! Translation of user-facing configurations into engine descriptors.
//!
//! Translation itself is pure and total: it applies the layer's defaults
//! and fills every model-family slot the selected family does not use with
//! the engine's explicit absent value. The `prepare_*` entry points pair it
//! with the one validation this layer owes: a configuration missing a
//! required family field is refused with `ConfigError` before any engine
//! call. A malformed path inside a filled field, by contrast, is the
//! engine's problem at creation time, not the translator's.

use vstd::prelude::*;
use vstd::string::*;

use crate::config::OnlineTransducerConfig;
use crate::config::ParaformerConfig;
use crate::config::ZipFormerOnlineConfig;
use crate::config::transducer_config_complete;
use crate::config::zipformer_config_complete;
use crate::error::StreamingError;
use crate::descriptor::CtcFstDecoderSlot;
use crate::descriptor::FeatureDescriptor;
use crate::descriptor::LmSlot;
use crate::descriptor::OfflineDolphinSlot;
use crate::descriptor::OfflineFireRedAsrSlot;
use crate::descriptor::OfflineModelDescriptor;
use crate::descriptor::OfflineMoonshineSlot;
use crate::descriptor::OfflineNemoCtcSlot;
use crate::descriptor::OfflineParaformerSlot;
use crate::descriptor::OfflineRecognizerDescriptor;
use crate::descriptor::OfflineSenseVoiceSlot;
use crate::descriptor::OfflineTdnnSlot;
use crate::descriptor::OfflineTransducerSlot;
use crate::descriptor::OfflineWhisperSlot;
use crate::descriptor::OnlineModelDescriptor;
use crate::descriptor::OnlineNemoCtcSlot;
use crate::descriptor::OnlineParaformerSlot;
use crate::descriptor::OnlineRecognizerDescriptor;
use crate::descriptor::OnlineTransducerSlot;
use crate::descriptor::OnlineZipformer2CtcSlot;

verus! {

/// The execution provider used when a configuration names none.
pub open spec fn spec_default_provider() -> Seq<char> {
    "cpu"@
}

/// The provider a configuration selects: its own, or the default.
pub open spec fn spec_provider(provider: Option<String>) -> Seq<char> {
    match provider {
        Some(p) => p@,
        None => spec_default_provider(),
    }
}

/// The thread count a configuration selects: its own, or one thread.
pub open spec fn spec_threads(num_threads: Option<i32>) -> i32 {
    match num_threads {
        Some(n) => n,
        None => 1,
    }
}

/// The execution provider used when a configuration names none.
pub fn default_provider() -> (p: String)
    ensures
        p@ == spec_default_provider(),
{
    String::from_str("cpu")
}

/// Resolves an optional provider choice against the default.
pub fn provider_or_default(provider: &Option<String>) -> (p: String)
    ensures
        p@ == spec_provider(*provider),
{
    match provider {
        Some(name) => name.clone(),
        None => default_provider(),
    }
}

/// Resolves an optional thread count against the default of one thread.
pub fn threads_or_default(num_threads: &Option<i32>) -> (n: i32)
    ensures
        n == spec_threads(*num_threads),
{
    match num_threads {
        Some(n) => *n,
        None => 1,
    }
}

/// `d` is the translation of the paraformer configuration `c`: the
/// paraformer slot and the shared fields carry the configuration, every
/// other family slot carries the engine's absent value, and the batch
/// defaults are applied (sample rate 16000, feature dimension 80, greedy
/// search, no hotwords, no rescoring).
pub open spec fn is_paraformer_translation(d: OfflineRecognizerDescriptor, c: ParaformerConfig) -> bool {
    &&& d.model.paraformer.model@ == c.model@
    &&& d.model.tokens@ == c.tokens@
    &&& d.model.num_threads == spec_threads(c.num_threads)
    &&& d.model.debug == c.debug
    &&& d.model.provider@ == spec_provider(c.provider)
    &&& d.model.transducer.is_absent()
    &&& d.model.nemo_ctc.model@.len() == 0
    &&& d.model.whisper.is_absent()
    &&& d.model.tdnn.model@.len() == 0
    &&& d.model.sense_voice.is_absent()
    &&& d.model.moonshine.is_absent()
    &&& d.model.fire_red_asr.is_absent()
    &&& d.model.dolphin.model@.len() == 0
    &&& d.model.telespeech_ctc@.len() == 0
    &&& d.model.model_type@.len() == 0
    &&& d.model.modeling_unit@.len() == 0
    &&& d.model.bpe_vocab@.len() == 0
    &&& d.feat.sample_rate == 16000
    &&& d.feat.feature_dim == 80
    &&& d.decoding_method@ == "greedy_search"@
    &&& d.lm.model@.len() == 0
    &&& d.lm.scale == 0
    &&& d.max_active_paths == 0
    &&& d.hotwords_file@.len() == 0
    &&& d.hotwords_score == 0
    &&& d.rule_fsts@.len() == 0
    &&& d.rule_fars@.len() == 0
    &&& d.blank_penalty == 0
}

/// Translates a paraformer configuration into the engine's batch descriptor.
pub fn translate_paraformer(c: &ParaformerConfig) -> (d: OfflineRecognizerDescriptor)
    ensures
        is_paraformer_translation(d, *c),
{
    OfflineRecognizerDescriptor {
        feat: FeatureDescriptor { sample_rate: 16000, feature_dim: 80 },
        model: OfflineModelDescriptor {
            transducer: OfflineTransducerSlot {
                encoder: String::new(),
                decoder: String::new(),
                joiner: String::new(),
            },
            paraformer: OfflineParaformerSlot { model: c.model.clone() },
            nemo_ctc: OfflineNemoCtcSlot { model: String::new() },
            whisper: OfflineWhisperSlot {
                encoder: String::new(),
                decoder: String::new(),
                language: String::new(),
                task: String::new(),
                tail_paddings: 0,
            },
            tdnn: OfflineTdnnSlot { model: String::new() },
            sense_voice: OfflineSenseVoiceSlot {
                model: String::new(),
                language: String::new(),
                use_itn: false,
            },
            moonshine: OfflineMoonshineSlot {
                preprocessor: String::new(),
                encoder: String::new(),
                uncached_decoder: String::new(),
                cached_decoder: String::new(),
            },
            fire_red_asr: OfflineFireRedAsrSlot {
                encoder: String::new(),
                decoder: String::new(),
            },
            dolphin: OfflineDolphinSlot { model: String::new() },
            telespeech_ctc: String::new(),
            tokens: c.tokens.clone(),
            num_threads: threads_or_default(&c.num_threads),
            debug: c.debug,
            provider: provider_or_default(&c.provider),
            model_type: String::new(),
            modeling_unit: String::new(),
            bpe_vocab: String::new(),
        },
        lm: LmSlot { model: String::new(), scale: 0 },
        decoding_method: String::from_str("greedy_search"),
        max_active_paths: 0,
        hotwords_file: String::new(),
        hotwords_score: 0,
        rule_fsts: String::new(),
        rule_fars: String::new(),
        blank_penalty: 0,
    }
}

/// `d` is the translation of the streaming transducer configuration `c`:
/// the transducer slot and every tunable carry the configuration, every
/// other family slot carries the engine's absent value.
pub open spec fn is_transducer_translation(d: OnlineRecognizerDescriptor, c: OnlineTransducerConfig) -> bool {
    &&& d.model.transducer.encoder@ == c.encoder@
    &&& d.model.transducer.decoder@ == c.decoder@
    &&& d.model.transducer.joiner@ == c.joiner@
    &&& d.model.tokens@ == c.tokens@
    &&& d.model.num_threads == c.num_threads
    &&& d.model.provider@ == spec_provider(c.provider)
    &&& d.model.debug == c.debug
    &&& d.model.model_type@ == c.model_type@
    &&& d.model.modeling_unit@ == c.modeling_unit@
    &&& d.model.bpe_vocab@ == c.bpe_vocab@
    &&& d.model.paraformer.is_absent()
    &&& d.model.zipformer2_ctc.model@.len() == 0
    &&& d.model.nemo_ctc.model@.len() == 0
    &&& d.model.tokens_buf_size == 0
    &&& d.feat.sample_rate == c.sample_rate
    &&& d.feat.feature_dim == c.feature_dim
    &&& d.decoding_method@ == c.decoding_method@
    &&& d.max_active_paths == c.max_active_paths
    &&& d.enable_endpoint == c.enable_endpoint
    &&& d.rule1_min_trailing_silence == c.rule1_min_trailing_silence
    &&& d.rule2_min_trailing_silence == c.rule2_min_trailing_silence
    &&& d.rule3_min_utterance_length == c.rule3_min_utterance_length
    &&& d.hotwords_file@ == c.hotwords_file@
    &&& d.hotwords_score == c.hotwords_score
    &&& d.ctc_fst_decoder.is_absent()
    &&& d.rule_fsts@.len() == 0
    &&& d.rule_fars@.len() == 0
    &&& d.blank_penalty == c.blank_penalty
    &&& d.hotwords_buf_size == 0
}

/// Translates a streaming transducer configuration into the engine's
/// streaming descriptor.
pub fn translate_transducer_online(c: &OnlineTransducerConfig) -> (d: OnlineRecognizerDescriptor)
    ensures
        is_transducer_translation(d, *c),
{
    OnlineRecognizerDescriptor {
        feat: FeatureDescriptor { sample_rate: c.sample_rate, feature_dim: c.feature_dim },
        model: OnlineModelDescriptor {
            transducer: OnlineTransducerSlot {
                encoder: c.encoder.clone(),
                decoder: c.decoder.clone(),
                joiner: c.joiner.clone(),
            },
            paraformer: OnlineParaformerSlot {
                encoder: String::new(),
                decoder: String::new(),
            },
            zipformer2_ctc: OnlineZipformer2CtcSlot { model: String::new() },
            nemo_ctc: OnlineNemoCtcSlot { model: String::new() },
            tokens: c.tokens.clone(),
            num_threads: c.num_threads,
            provider: provider_or_default(&c.provider),
            debug: c.debug,
            model_type: c.model_type.clone(),
            modeling_unit: c.modeling_unit.clone(),
            bpe_vocab: c.bpe_vocab.clone(),
            tokens_buf_size: 0,
        },
        decoding_method: c.decoding_method.clone(),
        max_active_paths: c.max_active_paths,
        enable_endpoint: c.enable_endpoint,
        rule1_min_trailing_silence: c.rule1_min_trailing_silence,
        rule2_min_trailing_silence: c.rule2_min_trailing_silence,
        rule3_min_utterance_length: c.rule3_min_utterance_length,
        hotwords_file: c.hotwords_file.clone(),
        hotwords_score: c.hotwords_score,
        ctc_fst_decoder: CtcFstDecoderSlot { graph: String::new(), max_active: 0 },
        rule_fsts: String::new(),
        rule_fars: String::new(),
        blank_penalty: c.blank_penalty,
        hotwords_buf_size: 0,
    }
}

/// The decoding method a zipformer configuration selects: its own, or
/// greedy search.
pub open spec fn spec_decoding_method(decoding_method: Option<String>) -> Seq<char> {
    match decoding_method {
        Some(m) => m@,
        None => "greedy_search"@,
    }
}

/// `d` is the translation of the streaming zipformer configuration `c`: the
/// transducer slot carries the configuration, every other family slot
/// carries the engine's absent value, and the streaming defaults are applied
/// (sample rate 16000, feature dimension 80, greedy search, endpoint
/// detection enabled with trailing-silence rules of 2400 ms and 1200 ms, a
/// minimum utterance length of 20000 ms, and at most 4 active search paths).
pub open spec fn is_zipformer_translation(d: OnlineRecognizerDescriptor, c: ZipFormerOnlineConfig) -> bool {
    &&& d.model.transducer.encoder@ == c.encoder@
    &&& d.model.transducer.decoder@ == c.decoder@
    &&& d.model.transducer.joiner@ == c.joiner@
    &&& d.model.tokens@ == c.tokens@
    &&& d.model.num_threads == spec_threads(c.num_threads)
    &&& d.model.provider@ == spec_provider(c.provider)
    &&& d.model.debug == c.debug
    &&& d.model.model_type@.len() == 0
    &&& d.model.modeling_unit@.len() == 0
    &&& d.model.bpe_vocab@.len() == 0
    &&& d.model.paraformer.is_absent()
    &&& d.model.zipformer2_ctc.model@.len() == 0
    &&& d.model.nemo_ctc.model@.len() == 0
    &&& d.model.tokens_buf_size == 0
    &&& d.feat.sample_rate == (match c.sample_rate {
        Some(r) => r,
        None => 16000,
    })
    &&& d.feat.feature_dim == (match c.feature_dim {
        Some(f) => f,
        None => 80,
    })
    &&& d.decoding_method@ == spec_decoding_method(c.decoding_method)
    &&& d.max_active_paths == 4
    &&& d.enable_endpoint == true
    &&& d.rule1_min_trailing_silence == 2400
    &&& d.rule2_min_trailing_silence == 1200
    &&& d.rule3_min_utterance_length == 20000
    &&& d.hotwords_file@.len() == 0
    &&& d.hotwords_score == 0
    &&& d.ctc_fst_decoder.is_absent()
    &&& d.rule_fsts@.len() == 0
    &&& d.rule_fars@.len() == 0
    &&& d.blank_penalty == 0
    &&& d.hotwords_buf_size == 0
}

/// Translates a streaming zipformer configuration into the engine's
/// streaming descriptor, applying the streaming defaults for every option
/// the configuration leaves open.
pub fn translate_zipformer_online(c: &ZipFormerOnlineConfig) -> (d: OnlineRecognizerDescriptor)
    ensures
        is_zipformer_translation(d, *c),
{
    let sample_rate: i32 = match &c.sample_rate {
        Some(r) => *r,
        None => 16000,
    };
    let feature_dim: i32 = match &c.feature_dim {
        Some(f) => *f,
        None => 80,
    };
    let decoding_method: String = match &c.decoding_method {
        Some(m) => m.clone(),
        None => String::from_str("greedy_search"),
    };
    OnlineRecognizerDescriptor {
        feat: FeatureDescriptor { sample_rate, feature_dim },
        model: OnlineModelDescriptor {
            transducer: OnlineTransducerSlot {
                encoder: c.encoder.clone(),
                decoder: c.decoder.clone(),
                joiner: c.joiner.clone(),
            },
            paraformer: OnlineParaformerSlot {
                encoder: String::new(),
                decoder: String::new(),
            },
            zipformer2_ctc: OnlineZipformer2CtcSlot { model: String::new() },
            nemo_ctc: OnlineNemoCtcSlot { model: String::new() },
            tokens: c.tokens.clone(),
            num_threads: threads_or_default(&c.num_threads),
            provider: provider_or_default(&c.provider),
            debug: c.debug,
            model_type: String::new(),
            modeling_unit: String::new(),
            bpe_vocab: String::new(),
            tokens_buf_size: 0,
        },
        decoding_method,
        max_active_paths: 4,
        enable_endpoint: true,
        rule1_min_trailing_silence: 2400,
        rule2_min_trailing_silence: 1200,
        rule3_min_utterance_length: 20000,
        hotwords_file: String::new(),
        hotwords_score: 0,
        ctc_fst_decoder: CtcFstDecoderSlot { graph: String::new(), max_active: 0 },
        rule_fsts: String::new(),
        rule_fars: String::new(),
        blank_penalty: 0,
        hotwords_buf_size: 0,
    }
}

/// Validates a streaming transducer configuration and translates it. A
/// configuration missing a required family field is refused with
/// `ConfigError` before any engine call, so no recognizer — let alone a
/// stream — is created for it.
pub fn prepare_transducer_online(c: &OnlineTransducerConfig) -> (r: Result<
    OnlineRecognizerDescriptor,
    StreamingError,
>)
    ensures
        r is Ok <==> transducer_config_complete(*c),
        r matches Ok(d) ==> is_transducer_translation(d, *c),
        r matches Err(e) ==> e == StreamingError::ConfigError,
{
    if c.is_complete() {
        Ok(translate_transducer_online(c))
    } else {
        Err(StreamingError::ConfigError)
    }
}

/// Validates a streaming zipformer configuration and translates it. A
/// configuration missing a required family field is refused with
/// `ConfigError` before any engine call, so no recognizer — let alone a
/// stream — is created for it.
pub fn prepare_zipformer_online(c: &ZipFormerOnlineConfig) -> (r: Result<
    OnlineRecognizerDescriptor,
    StreamingError,
>)
    ensures
        r is Ok <==> zipformer_config_complete(*c),
        r matches Ok(d) ==> is_zipformer_translation(d, *c),
        r matches Err(e) ==> e == StreamingError::ConfigError,
{
    if c.is_complete() {
        Ok(translate_zipformer_online(c))
    } else {
        Err(StreamingError::ConfigError)
    }
}

} // verus!
