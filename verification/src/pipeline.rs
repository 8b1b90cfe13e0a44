//! The dictation pipeline: transcription first, then normalization, then
//! the escalation decision, then completion. Normalization always
//! finishes before the decision is read; escalation, when triggered,
//! happens after normalization and before the outcome stands. A failed
//! escalation degrades to the transcript with a recorded warning; a
//! failed transcription fails the whole invocation.

use vstd::prelude::*;

verus! {

use vstd::string::StringExecFns;
use crate::text::{str_to_chars, chars_to_string, trim_chars, spec_trim, contains_ci,
    contains_ci_exec};
use crate::normalize::{spec_clean_ws, clean_ws};
use crate::substitute::{SubstitutionRule, spec_apply_rules, apply_rules};
use crate::transcribe::TranscriptionResult;
use crate::chat::{spec_chat_body, spec_escalation_prompt, build_chat_request};

/// The configuration snapshot a pipeline invocation reads once and never
/// mutates.
pub struct DictationConfig {
    pub vocabulary: Vec<String>,
    pub instructions: String,
    pub substitutions: Vec<SubstitutionRule>,
    pub prefer_local: bool,
    pub credential: String,
}

impl Default for DictationConfig {
    /// Defaults for unset keys: everything empty, the local engine not
    /// preferred, no credential.
    fn default() -> (c: Self)
        ensures
            c.vocabulary@ == Seq::<String>::empty(),
            c.instructions@ == Seq::<char>::empty(),
            c.substitutions@ == Seq::<SubstitutionRule>::empty(),
            !c.prefer_local,
            c.credential@ == Seq::<char>::empty(),
    {
        DictationConfig {
            vocabulary: Vec::new(),
            instructions: String::new(),
            substitutions: Vec::new(),
            prefer_local: false,
            credential: String::new(),
        }
    }
}

/// The substitution list observed behavior generalizes: the single spoken
/// line-break command.
pub fn default_substitutions() -> (rules: Vec<SubstitutionRule>)
    ensures
        rules@.len() == 1,
        rules@[0].from@ == "slap"@,
        rules@[0].to@ == "\n"@,
{
    let mut rules: Vec<SubstitutionRule> = Vec::new();
    rules.push(
        SubstitutionRule { from: String::from_str("slap"), to: String::from_str("\n") },
    );
    rules
}

/// Pipeline-level failures: a transcription that no engine could produce
/// is fatal for the invocation and keeps the service's own account of
/// the failure; a missing credential is reported before anything runs.
#[derive(Clone, PartialEq, Eq, Debug)]
pub enum PipelineError {
    TranscriptionServiceError { detail: String },
    MissingCredential,
}

impl PipelineError {
    /// A human-readable account; the transcription failure surfaces the
    /// service's error body, and the missing-credential message carries
    /// its remediation hint.
    pub fn message(&self) -> (m: String)
        ensures
            *self matches PipelineError::TranscriptionServiceError { detail } ==> m@
                == "the speech-to-text service failed: "@ + detail@,
            *self is MissingCredential ==> m@
                == "credential missing: add your API key in the settings"@,
    {
        match self {
            PipelineError::TranscriptionServiceError { detail } => String::from_str(
                "the speech-to-text service failed: ",
            ).concat(detail.as_str()),
            PipelineError::MissingCredential => String::from_str(
                "credential missing: add your API key in the settings",
            ),
        }
    }
}

/// A present credential passes; an empty one is the distinguished
/// missing-credential failure, if and only if.
pub fn check_credential(config: &DictationConfig) -> (r: Result<(), PipelineError>)
    ensures
        r is Ok <==> config.credential@.len() > 0,
        r is Err ==> r == Err::<(), PipelineError>(PipelineError::MissingCredential),
{
    if config.credential.as_str().unicode_len() > 0 {
        Ok(())
    } else {
        Err(PipelineError::MissingCredential)
    }
}

/// The fixed trigger phrase whose presence, case-insensitively, activates
/// escalation.
pub open spec fn spec_trigger_phrase() -> Seq<char> {
    "note to the editor"@
}

pub fn trigger_phrase() -> (s: &'static str)
    ensures
        s@ == spec_trigger_phrase(),
{
    "note to the editor"
}

/// Escalation is wanted exactly when something was said and the trigger
/// phrase stands in it, case ignored; an empty transcript short-circuits
/// regardless of trigger-phrase logic.
pub open spec fn spec_escalate(normalized: Seq<char>) -> bool {
    normalized.len() > 0 && contains_ci(normalized, spec_trigger_phrase())
}

pub fn should_escalate(normalized: &str) -> (b: bool)
    ensures
        b == spec_escalate(normalized@),
{
    let chars = str_to_chars(normalized);
    if chars.len() == 0 {
        return false;
    }
    let trig = str_to_chars(trigger_phrase());
    contains_ci_exec(&chars, &trig)
}

/// The normalized transcript: every substitution rule in list order, then
/// the whitespace cleanup.
pub open spec fn spec_normalize(raw: Seq<char>, rules: Seq<(Seq<char>, Seq<char>)>) -> Seq<char> {
    spec_clean_ws(spec_apply_rules(raw, rules))
}

pub fn normalize_transcript(raw: &str, rules: &Vec<SubstitutionRule>) -> (out: String)
    ensures
        out@ == spec_normalize(raw@, rules.deep_view()),
{
    let chars = str_to_chars(raw);
    let subbed = apply_rules(&chars, rules);
    let cleaned = clean_ws(&subbed);
    chars_to_string(&cleaned)
}

/// What one pipeline invocation hands back.
pub struct DictationOutcome {
    pub transcript: String,
    pub final_text: String,
    pub escalated: bool,
    pub warning: Option<String>,
}

/// The outcome's invariant: without escalation the final text is the
/// transcript and nothing is warned; a warning is recorded only on an
/// escalation attempt.
pub open spec fn outcome_wf(o: &DictationOutcome) -> bool {
    &&& !o.escalated ==> o.final_text@ == o.transcript@ && o.warning is None
    &&& o.warning is Some ==> o.escalated
}

impl DictationOutcome {
    /// The pair the surrounding program forwards: the transcript, and the
    /// final text as the response to hand on.
    pub fn to_processing_result(&self) -> (r: AudioProcessingResult)
        ensures
            r.transcription@ == self.transcript@,
            r.openai_response@ == self.final_text@,
    {
        AudioProcessingResult {
            transcription: self.transcript.clone(),
            openai_response: self.final_text.clone(),
        }
    }
}

/// The result of processing one artifact, as the surrounding program
/// reports it: the raw-side transcript and the text that is typed.
pub struct AudioProcessingResult {
    pub transcription: String,
    pub openai_response: String,
}

/// Where one invocation stands.
pub enum PipelineStage {
    Transcribing,
    Escalating { transcript: String },
    Complete { outcome: DictationOutcome },
    Failed { error: PipelineError },
}

/// One pipeline invocation, driven by the surrounding program: it feeds
/// the transcription tier's result, performs the one network call the
/// pipeline may ask for, and feeds the reply back.
pub struct DictationPipeline {
    pub stage: PipelineStage,
}

impl DictationPipeline {
    pub fn begin() -> (p: DictationPipeline)
        ensures
            p.stage is Transcribing,
    {
        DictationPipeline { stage: PipelineStage::Transcribing }
    }

    /// Takes the transcription tier's outcome. A failed transcription
    /// fails the invocation, the service's account kept. Otherwise the
    /// transcript is normalized, and the escalation decision is read off
    /// the normalized text: when the trigger phrase stands in it the
    /// pipeline asks for one request, whose body it builds in full;
    /// otherwise the normalized transcript is already the final text.
    pub fn on_transcription(
        &mut self,
        result: Result<TranscriptionResult, String>,
        config: &DictationConfig,
    ) -> (req: Option<String>)
        requires
            old(self).stage is Transcribing,
        ensures
            result matches Err(detail) ==> (final(self).stage matches PipelineStage::Failed {
                error,
            } && (error matches PipelineError::TranscriptionServiceError { detail: d } && d@
                == detail@) && req is None),
            result matches Ok(t) ==> ({
                let n = spec_normalize(t.text@, config.substitutions.deep_view());
                &&& spec_escalate(n) ==> (final(self).stage matches PipelineStage::Escalating {
                    transcript,
                } && transcript@ == n && (req matches Some(b) && b@ == spec_chat_body(
                    spec_escalation_prompt(config.instructions@, n),
                )))
                &&& !spec_escalate(n) ==> (final(self).stage matches PipelineStage::Complete {
                    outcome,
                } && outcome.transcript@ == n && outcome.final_text@ == n && !outcome.escalated
                    && outcome.warning is None && req is None && outcome_wf(&outcome))
            }),
    {
        let t = match result {
            Err(detail) => {
                self.stage = PipelineStage::Failed {
                    error: PipelineError::TranscriptionServiceError { detail },
                };
                return None;
            },
            Ok(t) => t,
        };
        let normalized = normalize_transcript(t.text.as_str(), &config.substitutions);
        if should_escalate(normalized.as_str()) {
            let body = build_chat_request(config.instructions.as_str(), normalized.as_str());
            self.stage = PipelineStage::Escalating { transcript: normalized };
            Some(body)
        } else {
            self.stage = PipelineStage::Complete {
                outcome: DictationOutcome {
                    transcript: normalized.clone(),
                    final_text: normalized,
                    escalated: false,
                    warning: None,
                },
            };
            None
        }
    }

    /// Takes the text-generation reply. A response completes the
    /// invocation with its content, trimmed, as final text. A failure of
    /// any kind degrades to the normalized transcript with a recorded
    /// warning — the invocation itself still succeeds.
    pub fn on_escalation(&mut self, reply: Option<String>)
        requires
            old(self).stage is Escalating,
        ensures
            old(self).stage matches PipelineStage::Escalating { transcript }
                ==> (final(self).stage matches PipelineStage::Complete { outcome }
                && outcome_wf(&outcome)
                && outcome.transcript@ == transcript@ && outcome.escalated && {
                match reply {
                    Some(t) => outcome.final_text@ == spec_trim(t@) && outcome.warning is None,
                    None => outcome.final_text@ == transcript@ && (
                    outcome.warning matches Some(w) && w@
                        == "text generation failed; the transcript stands"@),
                }
            }),
    {
        let transcript = match &self.stage {
            PipelineStage::Escalating { transcript } => transcript.clone(),
            _ => {
                // the stage this method asks for always carries its
                // transcript
                proof {
                    assert(false);
                }
                String::new()
            },
        };
        match reply {
            Some(t) => {
                let chars = str_to_chars(t.as_str());
                let trimmed = trim_chars(&chars);
                let final_text = chars_to_string(&trimmed);
                self.stage = PipelineStage::Complete {
                    outcome: DictationOutcome {
                        transcript,
                        final_text,
                        escalated: true,
                        warning: None,
                    },
                };
            },
            None => {
                let warning = String::from_str("text generation failed; the transcript stands");
                self.stage = PipelineStage::Complete {
                    outcome: DictationOutcome {
                        transcript: transcript.clone(),
                        final_text: transcript,
                        escalated: true,
                        warning: Some(warning),
                    },
                };
            },
        }
    }

    /// Takes the raw response body of the text-generation call, or
    /// nothing when the call itself failed. The message content is
    /// pulled out of the response envelope; an envelope holding one
    /// completes with it, trimmed, as final text, while a missing or
    /// malformed envelope counts as a failed escalation, so the
    /// transcript stands with a recorded warning — the invocation
    /// completes either way.
    pub fn on_escalation_body(&mut self, body: Option<String>)
        requires
            old(self).stage is Escalating,
        ensures
            old(self).stage matches PipelineStage::Escalating { transcript }
                ==> (final(self).stage matches PipelineStage::Complete { outcome }
                && outcome_wf(&outcome) && outcome.escalated && outcome.transcript@ == transcript@
                && (outcome.warning is Some ==> outcome.final_text@ == transcript@)
                && (body is None ==> outcome.warning is Some)),
            body matches Some(b) ==> (final(self).stage matches PipelineStage::Complete { outcome }
                && (match crate::chat::chat_content_of(b@) {
                Some(c) => outcome.warning is None && outcome.final_text@ == spec_trim(c),
                None => outcome.warning is Some,
            })),
    {
        let reply = match body {
            Some(b) => crate::chat::extract_chat_content(b.as_str()),
            None => None,
        };
        self.on_escalation(reply);
    }
}

proof fn lemma_apply_rules_empty(rules: Seq<(Seq<char>, Seq<char>)>)
    ensures
        spec_apply_rules(Seq::<char>::empty(), rules) == Seq::<char>::empty(),
    decreases rules.len(),
{
    if rules.len() != 0 {
        lemma_apply_rules_empty(rules.drop_first());
    }
}

/// A silent recording's empty transcript stays empty through every
/// substitution list and the whitespace cleanup, and an empty transcript
/// never asks for escalation.
pub proof fn law_empty_transcript(rules: Seq<(Seq<char>, Seq<char>)>)
    ensures
        spec_normalize(Seq::<char>::empty(), rules) == Seq::<char>::empty(),
        !spec_escalate(spec_normalize(Seq::<char>::empty(), rules)),
{
    lemma_apply_rules_empty(rules);
    let e = Seq::<char>::empty();
    assert(crate::normalize::split_lines(e) == seq![e]);
    assert(seq![e].drop_first() =~= Seq::<Seq<char>>::empty());
    assert(crate::normalize::clean_join(Seq::<Seq<char>>::empty()) == e);
    assert(crate::normalize::clean_line(e) == e);
    assert(crate::normalize::clean_join(seq![e]) == e);
}

} // verus!
