//! The compute side of text injection: the platform script that types a
//! text is built and escaped here, byte for byte; running it is the
//! surrounding program's business.

use vstd::prelude::*;

verus! {

use crate::text::{str_to_chars, chars_to_string, push_all};

/// How one character stands inside the script's quoted string: the
/// backslash and the double quote are escaped, everything else passes.
pub open spec fn script_escape_char(c: char) -> Seq<char> {
    if c == '\\' {
        seq!['\\', '\\']
    } else if c == '"' {
        seq!['\\', '"']
    } else {
        seq![c]
    }
}

/// A whole text escaped for the script's quoted string.
pub open spec fn script_escape(s: Seq<char>) -> Seq<char>
    decreases s.len(),
{
    if s.len() == 0 {
        Seq::<char>::empty()
    } else {
        script_escape_char(s[0]) + script_escape(s.drop_first())
    }
}

/// What stands before the escaped text in the typing script.
pub open spec fn script_head() -> Seq<char> {
    "tell application \"System Events\"\n    set theText to \""@
}

/// What stands after it: the loop that keys the text in, one character
/// at a time.
pub open spec fn script_tail() -> Seq<char> {
    "\"\n    repeat with i from 1 to (count of characters in theText)\n        set theChar to character i of theText\n        keystroke theChar\n    end repeat\nend tell"@
}

fn script_escape_exec(v: &Vec<char>) -> (out: Vec<char>)
    ensures
        out@ == script_escape(v@),
{
    let mut out: Vec<char> = Vec::new();
    let mut i: usize = 0;
    proof {
        assert(v@.skip(0) =~= v@);
    }
    while i < v.len()
        invariant
            i <= v.len(),
            script_escape(v@) == out@ + script_escape(v@.skip(i as int)),
        decreases v.len() - i,
    {
        let ghost rest = v@.skip(i as int);
        let ghost pre = out@;
        proof {
            assert(rest[0] == v@[i as int]);
            assert(rest.drop_first() =~= v@.skip(i as int + 1));
        }
        let c = v[i];
        if c == '\\' {
            out.push('\\');
            out.push('\\');
        } else if c == '"' {
            out.push('\\');
            out.push('"');
        } else {
            out.push(c);
        }
        proof {
            assert(out@ =~= pre + script_escape_char(v@[i as int]));
            assert(pre + (script_escape_char(v@[i as int]) + script_escape(v@.skip(i as int + 1)))
                =~= out@ + script_escape(v@.skip(i as int + 1)));
        }
        i += 1;
    }
    proof {
        assert(v@.skip(v@.len() as int) =~= Seq::<char>::empty());
        assert(out@ + Seq::<char>::empty() =~= out@);
    }
    out
}

/// The complete typing script for a text: head, the text escaped, tail.
/// The surrounding program hands this to the platform's script runner.
pub fn type_text_impl(text: &str) -> (script: String)
    ensures
        script@ == script_head() + script_escape(text@) + script_tail(),
{
    let chars = str_to_chars(text);
    let escaped = script_escape_exec(&chars);
    let mut out: Vec<char> = str_to_chars(
        "tell application \"System Events\"\n    set theText to \"",
    );
    push_all(&mut out, &escaped);
    let tail = str_to_chars(
        "\"\n    repeat with i from 1 to (count of characters in theText)\n        set theChar to character i of theText\n        keystroke theChar\n    end repeat\nend tell",
    );
    push_all(&mut out, &tail);
    chars_to_string(&out)
}

} // verus!
