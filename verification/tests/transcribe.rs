use typr::transcribe::{
    build_seed_prompt, remote_seed_prompt, transcribe_step, EngineKind, TranscribeAction,
    TranscribeEvent, TranscribeState,
};

#[test]
fn local_engine_runs_first_when_preferred_and_available() {
    let (s, a) = transcribe_step(
        TranscribeState::Ready,
        TranscribeEvent::Begin { local_available: true },
        true,
    );
    assert!(matches!(s, TranscribeState::AwaitingLocal));
    assert_eq!(a, Some(TranscribeAction::RunLocal));
}

#[test]
fn unavailable_local_engine_routes_straight_to_remote() {
    let (s, a) = transcribe_step(
        TranscribeState::Ready,
        TranscribeEvent::Begin { local_available: false },
        true,
    );
    assert!(matches!(s, TranscribeState::AwaitingRemote));
    assert_eq!(a, Some(TranscribeAction::RunRemote));
}

#[test]
fn local_engine_not_preferred_is_never_run() {
    let (s, a) = transcribe_step(
        TranscribeState::Ready,
        TranscribeEvent::Begin { local_available: true },
        false,
    );
    assert!(matches!(s, TranscribeState::AwaitingRemote));
    assert_eq!(a, Some(TranscribeAction::RunRemote));
}

#[test]
fn failed_local_attempt_falls_back_to_remote() {
    let (s, a) = transcribe_step(
        TranscribeState::AwaitingLocal,
        TranscribeEvent::LocalFinished(None),
        true,
    );
    assert!(matches!(s, TranscribeState::AwaitingRemote));
    assert_eq!(a, Some(TranscribeAction::RunRemote));
}

#[test]
fn empty_local_output_is_a_silent_local_transcript() {
    let (s, a) = transcribe_step(
        TranscribeState::AwaitingLocal,
        TranscribeEvent::LocalFinished(Some(String::new())),
        true,
    );
    match s {
        TranscribeState::Done(r) => {
            assert_eq!(r.text, "");
            assert_eq!(r.engine, EngineKind::Local);
        }
        _ => panic!("a finished local attempt is the whole result"),
    }
    assert_eq!(a, None);
}

#[test]
fn successful_local_attempt_is_the_whole_result() {
    let (s, a) = transcribe_step(
        TranscribeState::AwaitingLocal,
        TranscribeEvent::LocalFinished(Some(String::from("hello there"))),
        true,
    );
    match s {
        TranscribeState::Done(r) => {
            assert_eq!(r.text, "hello there");
            assert_eq!(r.engine, EngineKind::Local);
        }
        _ => panic!("expected a finished transcription"),
    }
    assert_eq!(a, None);
}

#[test]
fn remote_success_completes_with_the_remote_text() {
    let (s, a) = transcribe_step(
        TranscribeState::AwaitingRemote,
        TranscribeEvent::RemoteFinished(Ok(String::from("from the service"))),
        false,
    );
    match s {
        TranscribeState::Done(r) => {
            assert_eq!(r.text, "from the service");
            assert_eq!(r.engine, EngineKind::Remote);
        }
        _ => panic!("expected a finished transcription"),
    }
    assert_eq!(a, None);
}

#[test]
fn remote_failure_is_final_and_keeps_the_service_account() {
    let (s, a) = transcribe_step(
        TranscribeState::AwaitingRemote,
        TranscribeEvent::RemoteFinished(Err(String::from("401: invalid key"))),
        false,
    );
    match s {
        TranscribeState::Failed { detail } => assert_eq!(detail, "401: invalid key"),
        _ => panic!("a remote failure has no further fallback"),
    }
    assert_eq!(a, None);
}

#[test]
fn an_event_out_of_turn_changes_nothing() {
    let (s, a) = transcribe_step(
        TranscribeState::Ready,
        TranscribeEvent::RemoteFinished(Ok(String::from("stray"))),
        true,
    );
    assert!(matches!(s, TranscribeState::Ready));
    assert_eq!(a, None);
}

#[test]
fn seed_prompt_without_vocabulary_is_the_bare_preamble() {
    let p = build_seed_prompt(&Vec::new());
    assert_eq!(p, "Here is a dictation of spoken text.");
}

#[test]
fn seed_prompt_lists_the_vocabulary_and_skips_blank_entries() {
    let vocab = vec![
        String::from("Verus"),
        String::from("   "),
        String::from(""),
        String::from("push-to-talk"),
    ];
    let p = build_seed_prompt(&vocab);
    assert_eq!(
        p,
        "Here is a dictation of spoken text.\n\nCommon words and phrases to recognize: Verus, push-to-talk"
    );
}

#[test]
fn remote_seed_prompt_appends_the_transcription_cue() {
    let p = remote_seed_prompt("Here is a dictation of spoken text.");
    assert_eq!(p, "Here is a dictation of spoken text. \n\nTranscription:");
}
