//! Core of a push-to-talk dictation tool: a capture-session state machine
//! that turns microphone samples into a durable audio artifact, and a
//! dictation pipeline that turns a transcript into final text through
//! substitution, whitespace cleanup and conditional escalation to a
//! text-generation service.

pub mod capture;
pub mod chat;
pub mod normalize;
pub mod pipeline;
pub mod substitute;
pub mod text;
pub mod transcribe;
pub mod typing;
pub mod wav;
