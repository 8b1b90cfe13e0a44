use typr::chat::build_chat_request;
use typr::pipeline::{
    check_credential, default_substitutions, normalize_transcript, should_escalate,
    trigger_phrase, DictationConfig, DictationPipeline, PipelineError, PipelineStage,
};
use typr::substitute::SubstitutionRule;
use typr::transcribe::{EngineKind, TranscriptionResult};

fn config_with_defaults() -> DictationConfig {
    DictationConfig {
        vocabulary: Vec::new(),
        instructions: String::from("Follow the note."),
        substitutions: default_substitutions(),
        prefer_local: false,
        credential: String::from("SECRET-REDACTED"),
    }
}

fn remote_result(text: &str) -> Result<TranscriptionResult, String> {
    Ok(TranscriptionResult { text: String::from(text), engine: EngineKind::Remote })
}

#[test]
fn slap_rule_replaces_every_occurrence() {
    let out = normalize_transcript("hello slap world slap again", &default_substitutions());
    assert_eq!(out, "hello\nworld\nagain");
}

#[test]
fn rules_apply_in_list_order_each_fully_before_the_next() {
    let rules = vec![
        SubstitutionRule { from: String::from("aa"), to: String::from("b") },
        SubstitutionRule { from: String::from("b"), to: String::from("c") },
    ];
    assert_eq!(normalize_transcript("aaa", &rules), "ca");
}

#[test]
fn whitespace_cleanup_trims_compacts_and_collapses() {
    let out = normalize_transcript("  hello   world \t \n\n\n  again  ", &Vec::new());
    assert_eq!(out, "hello world\nagain");
}

#[test]
fn editor_note_invokes_escalation() {
    let mut p = DictationPipeline::begin();
    let req = p.on_transcription(remote_result("note to the editor: ship it"), &config_with_defaults());
    assert!(req.is_some());
    assert!(matches!(p.stage, PipelineStage::Escalating { .. }));
}

#[test]
fn trigger_phrase_is_matched_case_insensitively() {
    assert!(should_escalate("NOTE TO THE EDITOR: tighten this up"));
    assert!(should_escalate("a Note To The Editor stands here"));
    assert!(!should_escalate("no note for anyone's editor here"));
    assert_eq!(trigger_phrase(), "note to the editor");
}

#[test]
fn plain_dictation_completes_without_escalation() {
    let mut p = DictationPipeline::begin();
    let req = p.on_transcription(remote_result("hello world"), &config_with_defaults());
    assert!(req.is_none());
    match p.stage {
        PipelineStage::Complete { outcome } => {
            assert_eq!(outcome.transcript, "hello world");
            assert_eq!(outcome.final_text, "hello world");
            assert!(!outcome.escalated);
            assert!(outcome.warning.is_none());
        }
        _ => panic!("expected a completed pipeline"),
    }
}

#[test]
fn escalation_reply_becomes_the_final_text_trimmed() {
    let mut p = DictationPipeline::begin();
    let req = p.on_transcription(
        remote_result("note to the editor: ship it"),
        &config_with_defaults(),
    );
    assert!(req.is_some());
    p.on_escalation(Some(String::from("  Ship it.\n")));
    match p.stage {
        PipelineStage::Complete { outcome } => {
            assert_eq!(outcome.transcript, "note to the editor: ship it");
            assert_eq!(outcome.final_text, "Ship it.");
            assert!(outcome.escalated);
            assert!(outcome.warning.is_none());
        }
        _ => panic!("expected a completed pipeline"),
    }
}

#[test]
fn failed_escalation_degrades_to_the_transcript_with_a_warning() {
    let mut p = DictationPipeline::begin();
    let req = p.on_transcription(
        remote_result("note to the editor: shorten"),
        &config_with_defaults(),
    );
    assert!(req.is_some());
    p.on_escalation(None);
    match p.stage {
        PipelineStage::Complete { outcome } => {
            assert_eq!(outcome.final_text, outcome.transcript);
            assert_eq!(outcome.transcript, "note to the editor: shorten");
            assert!(outcome.escalated);
            assert!(outcome.warning.is_some());
            let result = outcome.to_processing_result();
            assert_eq!(result.transcription, "note to the editor: shorten");
            assert_eq!(result.openai_response, "note to the editor: shorten");
        }
        _ => panic!("the pipeline call itself must still succeed"),
    }
}

#[test]
fn empty_transcript_short_circuits_without_escalation() {
    let mut p = DictationPipeline::begin();
    let req = p.on_transcription(remote_result(""), &config_with_defaults());
    assert!(req.is_none());
    match p.stage {
        PipelineStage::Complete { outcome } => {
            assert_eq!(outcome.final_text, "");
            assert_eq!(outcome.transcript, "");
            assert!(!outcome.escalated);
        }
        _ => panic!("silence must still complete"),
    }
}

#[test]
fn blank_transcript_with_trigger_words_never_escalates_after_cleanup() {
    let mut p = DictationPipeline::begin();
    let req = p.on_transcription(remote_result("  \n \t \n  "), &config_with_defaults());
    assert!(req.is_none());
    assert!(matches!(p.stage, PipelineStage::Complete { .. }));
}

#[test]
fn failed_transcription_fails_the_whole_invocation() {
    let mut p = DictationPipeline::begin();
    let req = p.on_transcription(
        Err(String::from("503: service unavailable")),
        &config_with_defaults(),
    );
    assert!(req.is_none());
    match p.stage {
        PipelineStage::Failed { error } => {
            assert!(matches!(
                &error,
                PipelineError::TranscriptionServiceError { detail } if detail == "503: service unavailable"
            ));
            assert!(error.message().contains("503: service unavailable"));
        }
        _ => panic!("expected the transcription tier to be fatal"),
    }
}

#[test]
fn missing_credential_is_distinguished_and_hints_at_settings() {
    let mut config = config_with_defaults();
    config.credential = String::new();
    let err = check_credential(&config).unwrap_err();
    assert_eq!(err, PipelineError::MissingCredential);
    assert!(err.message().contains("add your API key in the settings"));
    assert!(check_credential(&config_with_defaults()).is_ok());
}

#[test]
fn escalation_request_body_is_well_formed_json() {
    let body = build_chat_request("Fix grammar.", "say \"hi\"\nthanks");
    let v: serde_json::Value = serde_json::from_str(&body).expect("the body must be valid JSON");
    assert_eq!(v["model"], "gpt-4o-mini");
    assert_eq!(v["messages"][0]["role"], "user");
    assert_eq!(
        v["messages"][0]["content"],
        "Task: Fix grammar.\n\nTranscription: say \"hi\"\nthanks"
    );
}

#[test]
fn escalation_completes_from_the_raw_response_envelope() {
    let mut p = DictationPipeline::begin();
    let req = p.on_transcription(
        remote_result("note to the editor: polish"),
        &config_with_defaults(),
    );
    assert!(req.is_some());
    let envelope =
        "{\"choices\":[{\"message\":{\"role\":\"assistant\",\"content\":\" Polished. \"}}]}";
    p.on_escalation_body(Some(String::from(envelope)));
    match p.stage {
        PipelineStage::Complete { outcome } => {
            assert_eq!(outcome.final_text, "Polished.");
            assert!(outcome.escalated);
            assert!(outcome.warning.is_none());
        }
        _ => panic!("expected a completed pipeline"),
    }
}

#[test]
fn a_malformed_response_envelope_degrades_to_the_transcript() {
    let mut p = DictationPipeline::begin();
    let req = p.on_transcription(
        remote_result("note to the editor: polish"),
        &config_with_defaults(),
    );
    assert!(req.is_some());
    p.on_escalation_body(Some(String::from("{\"error\":\"quota\"}")));
    match p.stage {
        PipelineStage::Complete { outcome } => {
            assert_eq!(outcome.final_text, "note to the editor: polish");
            assert!(outcome.escalated);
            assert!(outcome.warning.is_some());
        }
        _ => panic!("the pipeline call itself must still succeed"),
    }
}

#[test]
fn an_empty_or_missing_response_body_degrades_too() {
    let mut p = DictationPipeline::begin();
    let req = p.on_transcription(
        remote_result("note to the editor: polish"),
        &config_with_defaults(),
    );
    assert!(req.is_some());
    p.on_escalation_body(Some(String::new()));
    match p.stage {
        PipelineStage::Complete { outcome } => {
            assert_eq!(outcome.final_text, "note to the editor: polish");
            assert!(outcome.escalated);
            assert!(outcome.warning.is_some());
        }
        _ => panic!("the pipeline call itself must still succeed"),
    }
}

