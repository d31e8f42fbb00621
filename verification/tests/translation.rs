use sherpa_rs::config::OnlineTransducerConfig;
use sherpa_rs::config::ParaformerConfig;
use sherpa_rs::config::ZipFormerOnlineConfig;
use sherpa_rs::error::StreamingError;
use sherpa_rs::translate::default_provider;
use sherpa_rs::translate::prepare_transducer_online;
use sherpa_rs::translate::prepare_zipformer_online;
use sherpa_rs::translate::translate_paraformer;
use sherpa_rs::translate::translate_transducer_online;
use sherpa_rs::translate::translate_zipformer_online;

#[test]
fn paraformer_translation_fills_selected_family() {
    let c = ParaformerConfig {
        model: String::from("m.onnx"),
        tokens: String::from("t.bin"),
        provider: None,
        num_threads: Some(2),
        debug: true,
    };
    let d = translate_paraformer(&c);
    assert_eq!(d.model.paraformer.model, "m.onnx");
    assert_eq!(d.model.tokens, "t.bin");
    assert_eq!(d.model.num_threads, 2);
    assert!(d.model.debug);
    assert_eq!(d.model.provider, "cpu");
    assert_eq!(d.feat.sample_rate, 16000);
    assert_eq!(d.feat.feature_dim, 80);
    assert_eq!(d.decoding_method, "greedy_search");
}

#[test]
fn paraformer_translation_nulls_unused_families() {
    let c = ParaformerConfig {
        model: String::from("m.onnx"),
        tokens: String::from("t.bin"),
        provider: Some(String::from("cuda")),
        num_threads: None,
        debug: false,
    };
    let d = translate_paraformer(&c);
    assert_eq!(d.model.provider, "cuda");
    assert_eq!(d.model.num_threads, 1);
    assert_eq!(d.model.transducer.encoder, "");
    assert_eq!(d.model.transducer.decoder, "");
    assert_eq!(d.model.transducer.joiner, "");
    assert_eq!(d.model.nemo_ctc.model, "");
    assert_eq!(d.model.whisper.encoder, "");
    assert_eq!(d.model.whisper.decoder, "");
    assert_eq!(d.model.whisper.language, "");
    assert_eq!(d.model.whisper.task, "");
    assert_eq!(d.model.whisper.tail_paddings, 0);
    assert_eq!(d.model.tdnn.model, "");
    assert_eq!(d.model.sense_voice.model, "");
    assert_eq!(d.model.sense_voice.language, "");
    assert!(!d.model.sense_voice.use_itn);
    assert_eq!(d.model.moonshine.preprocessor, "");
    assert_eq!(d.model.moonshine.encoder, "");
    assert_eq!(d.model.moonshine.uncached_decoder, "");
    assert_eq!(d.model.moonshine.cached_decoder, "");
    assert_eq!(d.model.fire_red_asr.encoder, "");
    assert_eq!(d.model.fire_red_asr.decoder, "");
    assert_eq!(d.model.dolphin.model, "");
    assert_eq!(d.model.telespeech_ctc, "");
    assert_eq!(d.model.model_type, "");
    assert_eq!(d.model.modeling_unit, "");
    assert_eq!(d.model.bpe_vocab, "");
    assert_eq!(d.lm.model, "");
    assert_eq!(d.lm.scale, 0);
    assert_eq!(d.hotwords_file, "");
    assert_eq!(d.hotwords_score, 0);
    assert_eq!(d.max_active_paths, 0);
    assert_eq!(d.rule_fsts, "");
    assert_eq!(d.rule_fars, "");
    assert_eq!(d.blank_penalty, 0);
}

#[test]
fn transducer_translation_carries_every_tunable() {
    let mut c = OnlineTransducerConfig::default();
    c.encoder = String::from("enc.onnx");
    c.decoder = String::from("dec.onnx");
    c.joiner = String::from("join.onnx");
    c.tokens = String::from("tokens.txt");
    c.hotwords_file = String::from("hot.txt");
    c.hotwords_score = 1500;
    c.blank_penalty = 250;
    c.max_active_paths = 8;
    let d = translate_transducer_online(&c);
    assert_eq!(d.model.transducer.encoder, "enc.onnx");
    assert_eq!(d.model.transducer.decoder, "dec.onnx");
    assert_eq!(d.model.transducer.joiner, "join.onnx");
    assert_eq!(d.model.tokens, "tokens.txt");
    assert_eq!(d.model.model_type, "transducer");
    assert_eq!(d.model.provider, "cpu");
    assert_eq!(d.decoding_method, "greedy_search");
    assert_eq!(d.hotwords_file, "hot.txt");
    assert_eq!(d.hotwords_score, 1500);
    assert_eq!(d.blank_penalty, 250);
    assert_eq!(d.max_active_paths, 8);
    assert!(d.enable_endpoint);
    assert_eq!(d.rule1_min_trailing_silence, 2400);
    assert_eq!(d.rule2_min_trailing_silence, 1200);
    assert_eq!(d.rule3_min_utterance_length, 20000);
    assert_eq!(d.model.paraformer.encoder, "");
    assert_eq!(d.model.paraformer.decoder, "");
    assert_eq!(d.model.zipformer2_ctc.model, "");
    assert_eq!(d.model.nemo_ctc.model, "");
    assert_eq!(d.model.tokens_buf_size, 0);
    assert_eq!(d.ctc_fst_decoder.graph, "");
    assert_eq!(d.ctc_fst_decoder.max_active, 0);
}

#[test]
fn zipformer_translation_applies_streaming_defaults() {
    let mut c = ZipFormerOnlineConfig::default();
    c.encoder = String::from("enc.onnx");
    c.decoder = String::from("dec.onnx");
    c.joiner = String::from("join.onnx");
    c.tokens = String::from("tokens.txt");
    let d = translate_zipformer_online(&c);
    assert_eq!(d.feat.sample_rate, 16000);
    assert_eq!(d.feat.feature_dim, 80);
    assert_eq!(d.decoding_method, "greedy_search");
    assert!(d.enable_endpoint);
    assert_eq!(d.rule1_min_trailing_silence, 2400);
    assert_eq!(d.rule2_min_trailing_silence, 1200);
    assert_eq!(d.rule3_min_utterance_length, 20000);
    assert_eq!(d.max_active_paths, 4);
    assert_eq!(d.model.model_type, "");
    assert_eq!(d.hotwords_file, "");
    assert_eq!(d.hotwords_score, 0);
    assert_eq!(d.blank_penalty, 0);
}

#[test]
fn zipformer_translation_honours_explicit_choices() {
    let mut c = ZipFormerOnlineConfig::default();
    c.encoder = String::from("enc.onnx");
    c.decoder = String::from("dec.onnx");
    c.joiner = String::from("join.onnx");
    c.tokens = String::from("tokens.txt");
    c.sample_rate = Some(8000);
    c.feature_dim = Some(40);
    c.decoding_method = Some(String::from("modified_beam_search"));
    c.num_threads = Some(4);
    c.provider = Some(String::from("cuda"));
    let d = translate_zipformer_online(&c);
    assert_eq!(d.feat.sample_rate, 8000);
    assert_eq!(d.feat.feature_dim, 40);
    assert_eq!(d.decoding_method, "modified_beam_search");
    assert_eq!(d.model.num_threads, 4);
    assert_eq!(d.model.provider, "cuda");
}

#[test]
fn incomplete_streaming_configs_are_refused() {
    let c = OnlineTransducerConfig::default();
    assert!(matches!(prepare_transducer_online(&c), Err(StreamingError::ConfigError)));
    let mut z = ZipFormerOnlineConfig::default();
    z.encoder = String::from("enc.onnx");
    z.decoder = String::from("dec.onnx");
    z.joiner = String::from("join.onnx");
    assert!(matches!(prepare_zipformer_online(&z), Err(StreamingError::ConfigError)));
    z.tokens = String::from("tokens.txt");
    assert!(prepare_zipformer_online(&z).is_ok());
}

#[test]
fn default_provider_is_cpu() {
    assert_eq!(default_provider(), "cpu");
}
