//! The transcription adapter: one artifact, one engine choice. The local
//! engine is preferred when asked for and available; a local attempt that
//! is unavailable or fails falls through to the remote service; only a
//! remote failure fails transcription, and it carries the service's own
//! account of the failure. The surrounding program runs the engines and
//! feeds their outcomes back as events.

use vstd::prelude::*;

verus! {

use vstd::string::StringExecFns;

/// Which speech-to-text engine produced a transcript.
#[derive(Clone, Copy, PartialEq, Eq, Structural, Debug)]
pub enum EngineKind {
    Local,
    Remote,
}

/// A raw transcript and the engine that produced it. The text is empty
/// only when the source audio was silent.
pub struct TranscriptionResult {
    pub text: String,
    pub engine: EngineKind,
}

/// The adapter's state while one artifact is transcribed; a failure
/// keeps the service's error account for the caller.
pub enum TranscribeState {
    Ready,
    AwaitingLocal,
    AwaitingRemote,
    Done(TranscriptionResult),
    Failed { detail: String },
}

/// What the surrounding program reports back to the adapter: whether a
/// local engine is there, what the local attempt produced if it ran to
/// completion, and the remote service's transcript or its error body.
pub enum TranscribeEvent {
    Begin { local_available: bool },
    LocalFinished(Option<String>),
    RemoteFinished(Result<String, String>),
}

/// What the adapter asks the surrounding program to run next.
#[derive(Clone, Copy, PartialEq, Eq, Structural, Debug)]
pub enum TranscribeAction {
    RunLocal,
    RunRemote,
}

/// The transition relation of the adapter, the engine choice made
/// deterministically: local first exactly when preferred and available;
/// a local attempt that could not run or did not finish falls through to
/// the remote service, while whatever text a finished local attempt
/// produced — empty for silence included — is the whole transcript; a
/// remote failure is final, since no further fallback exists. An event
/// out of turn changes nothing.
pub open spec fn spec_transcribe_step(
    s: TranscribeState,
    e: TranscribeEvent,
    prefer_local: bool,
) -> (TranscribeState, Option<TranscribeAction>) {
    match (s, e) {
        (TranscribeState::Ready, TranscribeEvent::Begin { local_available }) => if prefer_local
            && local_available {
            (TranscribeState::AwaitingLocal, Some(TranscribeAction::RunLocal))
        } else {
            (TranscribeState::AwaitingRemote, Some(TranscribeAction::RunRemote))
        },
        (TranscribeState::AwaitingLocal, TranscribeEvent::LocalFinished(out)) => match out {
            Some(t) => (
                TranscribeState::Done(TranscriptionResult { text: t, engine: EngineKind::Local }),
                None,
            ),
            None => (TranscribeState::AwaitingRemote, Some(TranscribeAction::RunRemote)),
        },
        (TranscribeState::AwaitingRemote, TranscribeEvent::RemoteFinished(out)) => match out {
            Ok(t) => (
                TranscribeState::Done(TranscriptionResult { text: t, engine: EngineKind::Remote }),
                None,
            ),
            Err(detail) => (TranscribeState::Failed { detail }, None),
        },
        (other, _) => (other, None),
    }
}

/// Drives the adapter one event forward, exactly as the transition
/// relation states.
pub fn transcribe_step(s: TranscribeState, e: TranscribeEvent, prefer_local: bool) -> (r: (
    TranscribeState,
    Option<TranscribeAction>,
))
    ensures
        r == spec_transcribe_step(s, e, prefer_local),
{
    match (s, e) {
        (TranscribeState::Ready, TranscribeEvent::Begin { local_available }) => if prefer_local
            && local_available {
            (TranscribeState::AwaitingLocal, Some(TranscribeAction::RunLocal))
        } else {
            (TranscribeState::AwaitingRemote, Some(TranscribeAction::RunRemote))
        },
        (TranscribeState::AwaitingLocal, TranscribeEvent::LocalFinished(out)) => match out {
            Some(t) => (
                TranscribeState::Done(TranscriptionResult { text: t, engine: EngineKind::Local }),
                None,
            ),
            None => (TranscribeState::AwaitingRemote, Some(TranscribeAction::RunRemote)),
        },
        (TranscribeState::AwaitingRemote, TranscribeEvent::RemoteFinished(out)) => match out {
            Ok(t) => (
                TranscribeState::Done(TranscriptionResult { text: t, engine: EngineKind::Remote }),
                None,
            ),
            Err(detail) => (TranscribeState::Failed { detail }, None),
        },
        (other, _) => (other, None),
    }
}

/// The fallback order, spelled out: a local engine not preferred or not
/// available is never run; only a local attempt that could not finish
/// routes to the remote service — whatever text a finished one produced
/// is the whole transcript; the remote result alone decides between
/// completion and a failure that keeps the service's account; and a
/// transcript is never stitched from both engines.
pub proof fn law_transcription_fallback(
    prefer_local: bool,
    local_available: bool,
    t: String,
    d: String,
    pl: bool,
)
    ensures
        !(prefer_local && local_available) ==> spec_transcribe_step(
            TranscribeState::Ready,
            TranscribeEvent::Begin { local_available },
            prefer_local,
        ) == (TranscribeState::AwaitingRemote, Some(TranscribeAction::RunRemote)),
        spec_transcribe_step(
            TranscribeState::AwaitingLocal,
            TranscribeEvent::LocalFinished(None),
            pl,
        ) == (TranscribeState::AwaitingRemote, Some(TranscribeAction::RunRemote)),
        spec_transcribe_step(
            TranscribeState::AwaitingLocal,
            TranscribeEvent::LocalFinished(Some(t)),
            pl,
        ) == (
            TranscribeState::Done(TranscriptionResult { text: t, engine: EngineKind::Local }),
            None::<TranscribeAction>,
        ),
        spec_transcribe_step(
            TranscribeState::AwaitingRemote,
            TranscribeEvent::RemoteFinished(Err(d)),
            pl,
        ) == (TranscribeState::Failed { detail: d }, None::<TranscribeAction>),
        spec_transcribe_step(
            TranscribeState::AwaitingRemote,
            TranscribeEvent::RemoteFinished(Ok(t)),
            pl,
        ) == (
            TranscribeState::Done(TranscriptionResult { text: t, engine: EngineKind::Remote }),
            None::<TranscribeAction>,
        ),
{
}

/// An entry counts only if something visible stands in it.
pub open spec fn is_blank_entry(v: Seq<char>) -> bool {
    forall|i: int|
        0 <= i < v.len() ==> crate::text::is_blank_char(#[trigger] v[i]) || v[i] == '\n'
}

/// The kept vocabulary entries after the first, each behind a comma.
pub open spec fn vocab_tail(vocab: Seq<Seq<char>>) -> Seq<char>
    decreases vocab.len(),
{
    if vocab.len() == 0 {
        Seq::<char>::empty()
    } else if is_blank_entry(vocab[0]) {
        vocab_tail(vocab.drop_first())
    } else {
        ", "@ + vocab[0] + vocab_tail(vocab.drop_first())
    }
}

/// The kept vocabulary entries joined by commas, blank entries dropped.
pub open spec fn vocab_list(vocab: Seq<Seq<char>>) -> Seq<char>
    decreases vocab.len(),
{
    if vocab.len() == 0 {
        Seq::<char>::empty()
    } else if is_blank_entry(vocab[0]) {
        vocab_list(vocab.drop_first())
    } else {
        vocab[0] + vocab_tail(vocab.drop_first())
    }
}

/// The seed prompt handed to either engine: a fixed preamble, and the
/// vocabulary list appended when it has anything to say. It biases
/// recognition; it never filters output.
pub open spec fn spec_seed_prompt(vocab: Seq<Seq<char>>) -> Seq<char> {
    if vocab_list(vocab).len() == 0 {
        "Here is a dictation of spoken text."@
    } else {
        "Here is a dictation of spoken text."@ + "\n\nCommon words and phrases to recognize: "@
            + vocab_list(vocab)
    }
}

fn entry_is_blank(v: &Vec<char>) -> (b: bool)
    ensures
        b == is_blank_entry(v@),
{
    let mut i: usize = 0;
    while i < v.len()
        invariant
            i <= v.len(),
            forall|k: int|
                0 <= k < i ==> crate::text::is_blank_char(#[trigger] v@[k]) || v@[k] == '\n',
        decreases v.len() - i,
    {
        let c = v[i];
        if !(crate::text::blank_char(c) || c == '\n') {
            return false;
        }
        i += 1;
    }
    true
}

/// Builds the seed prompt from the configured vocabulary.
pub fn build_seed_prompt(vocab: &Vec<String>) -> (p: String)
    ensures
        p@ == spec_seed_prompt(vocab.deep_view()),
{
    let ghost dv = vocab.deep_view();
    let mut list: Vec<char> = Vec::new();
    let mut found: bool = false;
    let mut k: usize = 0;
    proof {
        assert(dv.skip(0) =~= dv);
    }
    while k < vocab.len()
        invariant
            k <= vocab.len(),
            dv == vocab.deep_view(),
            dv.len() == vocab.len(),
            !found ==> list@ == Seq::<char>::empty() && vocab_list(dv) == vocab_list(
                dv.skip(k as int),
            ),
            found ==> vocab_list(dv) == list@ + vocab_tail(dv.skip(k as int)),
        decreases vocab.len() - k,
    {
        let ghost rest = dv.skip(k as int);
        proof {
            assert(rest[0] == dv[k as int]);
            assert(dv[k as int] =~= vocab@[k as int]@);
            assert(rest.drop_first() =~= dv.skip(k as int + 1));
        }
        let entry = crate::text::str_to_chars(vocab[k].as_str());
        if !entry_is_blank(&entry) {
            if found {
                let sep = crate::text::str_to_chars(", ");
                crate::text::push_all(&mut list, &sep);
            }
            crate::text::push_all(&mut list, &entry);
            found = true;
        }
        k += 1;
    }
    proof {
        assert(dv.skip(dv.len() as int) =~= Seq::<Seq<char>>::empty());
        if found {
            assert(list@ + Seq::<char>::empty() =~= list@);
        }
    }
    let base = String::from_str("Here is a dictation of spoken text.");
    if list.len() == 0 {
        base
    } else {
        let tail = crate::text::chars_to_string(&list);
        base.concat("\n\nCommon words and phrases to recognize: ").concat(tail.as_str())
    }
}

/// The seed prompt as the remote service receives it, with the fixed
/// transcription cue appended.
pub fn remote_seed_prompt(seed: &str) -> (p: String)
    ensures
        p@ == seed@ + " \n\nTranscription:"@,
{
    String::from_str(seed).concat(" \n\nTranscription:")
}

} // verus!
