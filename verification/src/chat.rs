//! The text-generation service's wire format: the escalation request body
//! is built and escaped by verified code, byte for byte; only the pulling
//! of the reply's message content out of the response envelope leans on a
//! JSON parser.

use vstd::prelude::*;

verus! {

use crate::text::{str_to_chars, chars_to_string, push_all};

/// The hexadecimal digit for a value below sixteen.
pub open spec fn hex_digit(d: int) -> char {
    if d == 0 {
        '0'
    } else if d == 1 {
        '1'
    } else if d == 2 {
        '2'
    } else if d == 3 {
        '3'
    } else if d == 4 {
        '4'
    } else if d == 5 {
        '5'
    } else if d == 6 {
        '6'
    } else if d == 7 {
        '7'
    } else if d == 8 {
        '8'
    } else if d == 9 {
        '9'
    } else if d == 10 {
        'a'
    } else if d == 11 {
        'b'
    } else if d == 12 {
        'c'
    } else if d == 13 {
        'd'
    } else if d == 14 {
        'e'
    } else {
        'f'
    }
}

fn hex_digit_exec(d: u32) -> (c: char)
    requires
        d < 16,
    ensures
        c == hex_digit(d as int),
{
    match d {
        0 => '0',
        1 => '1',
        2 => '2',
        3 => '3',
        4 => '4',
        5 => '5',
        6 => '6',
        7 => '7',
        8 => '8',
        9 => '9',
        10 => 'a',
        11 => 'b',
        12 => 'c',
        13 => 'd',
        14 => 'e',
        _ => 'f',
    }
}

/// How one character stands inside a JSON string: the two mandatory
/// escapes, the common control characters by their short names, the rest
/// of the control range by a four-digit escape, everything else as it is.
pub open spec fn json_escape_char(c: char) -> Seq<char> {
    if c == '"' {
        seq!['\\', '"']
    } else if c == '\\' {
        seq!['\\', '\\']
    } else if c == '\n' {
        seq!['\\', 'n']
    } else if c == '\r' {
        seq!['\\', 'r']
    } else if c == '\t' {
        seq!['\\', 't']
    } else if (c as u32) < 32 {
        seq!['\\', 'u', '0', '0', hex_digit(c as u32 as int / 16), hex_digit(c as u32 as int % 16)]
    } else {
        seq![c]
    }
}

/// A whole text escaped for standing inside a JSON string.
pub open spec fn json_escape(s: Seq<char>) -> Seq<char>
    decreases s.len(),
{
    if s.len() == 0 {
        Seq::<char>::empty()
    } else {
        json_escape_char(s[0]) + json_escape(s.drop_first())
    }
}

fn json_escape_push(out: &mut Vec<char>, c: char)
    ensures
        final(out)@ == old(out)@ + json_escape_char(c),
{
    let ghost pre = out@;
    if c == '"' {
        out.push('\\');
        out.push('"');
    } else if c == '\\' {
        out.push('\\');
        out.push('\\');
    } else if c == '\n' {
        out.push('\\');
        out.push('n');
    } else if c == '\r' {
        out.push('\\');
        out.push('r');
    } else if c == '\t' {
        out.push('\\');
        out.push('t');
    } else if (c as u32) < 32 {
        out.push('\\');
        out.push('u');
        out.push('0');
        out.push('0');
        out.push(hex_digit_exec((c as u32) / 16));
        out.push(hex_digit_exec((c as u32) % 16));
    } else {
        out.push(c);
    }
    proof {
        assert(out@ =~= pre + json_escape_char(c));
    }
}

/// Escapes every character of the text.
pub fn json_escape_exec(v: &Vec<char>) -> (out: Vec<char>)
    ensures
        out@ == json_escape(v@),
{
    let mut out: Vec<char> = Vec::new();
    let mut i: usize = 0;
    proof {
        assert(v@.skip(0) =~= v@);
    }
    while i < v.len()
        invariant
            i <= v.len(),
            json_escape(v@) == out@ + json_escape(v@.skip(i as int)),
        decreases v.len() - i,
    {
        let ghost rest = v@.skip(i as int);
        let ghost pre = out@;
        proof {
            assert(rest[0] == v@[i as int]);
            assert(rest.drop_first() =~= v@.skip(i as int + 1));
        }
        json_escape_push(&mut out, v[i]);
        proof {
            assert(pre + (json_escape_char(v@[i as int]) + json_escape(v@.skip(i as int + 1)))
                =~= out@ + json_escape(v@.skip(i as int + 1)));
        }
        i += 1;
    }
    proof {
        assert(v@.skip(v@.len() as int) =~= Seq::<char>::empty());
        assert(out@ + Seq::<char>::empty() =~= out@);
    }
    out
}

/// The task handed to the text-generation service: the configured
/// instruction and the full normalized transcript as context.
pub open spec fn spec_escalation_prompt(instructions: Seq<char>, transcript: Seq<char>) -> Seq<
    char,
> {
    "Task: "@ + instructions + "\n\nTranscription: "@ + transcript
}

/// The complete request body around an escaped content string.
pub open spec fn spec_chat_body(content: Seq<char>) -> Seq<char> {
    "{\"model\":\"gpt-4o-mini\",\"messages\":[{\"role\":\"user\",\"content\":\""@ + json_escape(
        content,
    ) + "\"}],\"temperature\":0.2}"@
}

/// Builds the escalation request body for the given instruction and
/// normalized transcript, exactly as `spec_chat_body` states it.
pub fn build_chat_request(instructions: &str, transcript: &str) -> (body: String)
    ensures
        body@ == spec_chat_body(spec_escalation_prompt(instructions@, transcript@)),
{
    let mut content: Vec<char> = str_to_chars("Task: ");
    let instr = str_to_chars(instructions);
    push_all(&mut content, &instr);
    let cue = str_to_chars("\n\nTranscription: ");
    push_all(&mut content, &cue);
    let tx = str_to_chars(transcript);
    push_all(&mut content, &tx);
    let escaped = json_escape_exec(&content);
    let mut body: Vec<char> = str_to_chars(
        "{\"model\":\"gpt-4o-mini\",\"messages\":[{\"role\":\"user\",\"content\":\"",
    );
    push_all(&mut body, &escaped);
    let tail = str_to_chars("\"}],\"temperature\":0.2}");
    push_all(&mut body, &tail);
    chars_to_string(&body)
}

/// What the envelope extraction yields for a given response body: the
/// string standing at the first choice's message content, where the body
/// is a chat-completion envelope holding one, and nothing otherwise. The
/// result depends on the body alone.
pub uninterp spec fn chat_content_of(body: Seq<char>) -> Option<Seq<char>>;

/// Relies on `serde_json::from_str` and `Value::{get, as_str}`: pulls the
/// first choice's message content out of a chat-completion response body,
/// and yields nothing when the body is not such an envelope. An empty
/// body is not valid JSON, so nothing ever comes of it.
#[verifier::external_body]
pub(crate) fn extract_chat_content(body: &str) -> (r: Option<String>)
    ensures
        r is Some <==> chat_content_of(body@) is Some,
        r matches Some(c) ==> (chat_content_of(body@) matches Some(cc) && c@ == cc),
        body@.len() == 0 ==> r is None,
{
    let v: serde_json::Value = match serde_json::from_str(body) {
        Ok(v) => v,
        Err(_) => return None,
    };
    let content = v.get("choices")?.get(0)?.get("message")?.get("content")?.as_str()?;
    Some(content.to_string())
}

} // verus!
