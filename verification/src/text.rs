//! Character-level utilities shared by the dictation pipeline: conversion
//! between strings and character vectors, blank-character classification,
//! case-insensitive comparison, and literal find/replace.

use vstd::prelude::*;

verus! {

use vstd::string::StrSliceExecFns;

/// The characters treated as blank space inside a line: the Unicode
/// white-space table, except the newline, which separates lines and is
/// handled by the line cleanup.
pub open spec fn is_blank_char(c: char) -> bool {
    ||| c == ' '
    ||| c == '\t'
    ||| c == '\r'
    ||| c == '\u{0b}'
    ||| c == '\u{0c}'
    ||| c == '\u{85}'
    ||| c == '\u{a0}'
    ||| c == '\u{1680}'
    ||| (0x2000 <= c as u32 && c as u32 <= 0x200a)
    ||| c == '\u{2028}'
    ||| c == '\u{2029}'
    ||| c == '\u{202f}'
    ||| c == '\u{205f}'
    ||| c == '\u{3000}'
}

pub fn blank_char(c: char) -> (b: bool)
    ensures
        b == is_blank_char(c),
{
    let u: u32 = c as u32;
    u == 0x20 || u == 0x09 || u == 0x0d || u == 0x0b || u == 0x0c || u == 0x85 || u == 0xa0
        || u == 0x1680 || (0x2000 <= u && u <= 0x200a) || u == 0x2028 || u == 0x2029 || u == 0x202f
        || u == 0x205f || u == 0x3000
}

/// The code a character compares under when case is ignored: ASCII capital
/// letters fold to their small counterparts, everything else is itself.
pub open spec fn folded_code(c: char) -> int {
    if 65 <= c as u32 && c as u32 <= 90 {
        c as u32 + 32
    } else {
        c as u32 as int
    }
}

/// Case-insensitive character equality (ASCII folding).
pub open spec fn eq_ci(a: char, b: char) -> bool {
    folded_code(a) == folded_code(b)
}

pub fn chars_eq_ci(a: char, b: char) -> (r: bool)
    ensures
        r == eq_ci(a, b),
{
    let ac: u32 = a as u32;
    let bc: u32 = b as u32;
    let af: u32 = if 65 <= ac && ac <= 90 { ac + 32 } else { ac };
    let bf: u32 = if 65 <= bc && bc <= 90 { bc + 32 } else { bc };
    af == bf
}

/// The pattern stands, element for element, at position `i` of `text`.
pub open spec fn matches_at<T>(text: Seq<T>, pat: Seq<T>, i: int) -> bool {
    &&& 0 <= i
    &&& i + pat.len() <= text.len()
    &&& text.subrange(i, i + pat.len()) == pat
}

/// `text` holds `pat` somewhere as a contiguous run.
pub open spec fn contains_seq<T>(text: Seq<T>, pat: Seq<T>) -> bool {
    exists|i: int| matches_at(text, pat, i)
}

/// The sequence of folded codes, for case-insensitive containment.
pub open spec fn folded_seq(s: Seq<char>) -> Seq<int> {
    s.map_values(|c: char| folded_code(c))
}

/// `text` holds `pat` somewhere, compared case-insensitively.
pub open spec fn contains_ci(text: Seq<char>, pat: Seq<char>) -> bool {
    contains_seq(folded_seq(text), folded_seq(pat))
}

/// Whether `pat` matches `text` at position `i` exactly.
fn match_eq_at(text: &Vec<char>, pat: &Vec<char>, i: usize) -> (r: bool)
    requires
        i as int + pat@.len() <= text@.len(),
    ensures
        r == matches_at(text@, pat@, i as int),
{
    let mut j: usize = 0;
    while j < pat.len()
        invariant
            i + pat.len() <= text.len(),
            j <= pat@.len(),
            forall|k: int| 0 <= k < j ==> text@[i as int + k] == pat@[k],
        decreases pat@.len() - j,
    {
        if text[i + j] != pat[j] {
            proof {
                assert(text@.subrange(i as int, i as int + pat@.len())[j as int] != pat@[j as int]);
            }
            return false;
        }
        j += 1;
    }
    proof {
        assert(text@.subrange(i as int, i as int + pat@.len()) =~= pat@);
    }
    true
}

/// Whether `pat` matches `text` at position `i`, case-insensitively.
fn match_ci_at(text: &Vec<char>, pat: &Vec<char>, i: usize) -> (r: bool)
    requires
        i as int + pat@.len() <= text@.len(),
    ensures
        r == matches_at(folded_seq(text@), folded_seq(pat@), i as int),
{
    let mut j: usize = 0;
    while j < pat.len()
        invariant
            i + pat.len() <= text.len(),
            j <= pat@.len(),
            forall|k: int| 0 <= k < j ==> folded_code(text@[i as int + k]) == folded_code(pat@[k]),
        decreases pat@.len() - j,
    {
        if !chars_eq_ci(text[i + j], pat[j]) {
            proof {
                let ft = folded_seq(text@);
                let fp = folded_seq(pat@);
                assert(ft.subrange(i as int, i as int + fp.len())[j as int] != fp[j as int]);
            }
            return false;
        }
        j += 1;
    }
    proof {
        let ft = folded_seq(text@);
        let fp = folded_seq(pat@);
        assert(ft.subrange(i as int, i as int + fp.len()) =~= fp);
    }
    true
}

/// Case-insensitive containment check: a linear scan over every start.
pub fn contains_ci_exec(text: &Vec<char>, pat: &Vec<char>) -> (r: bool)
    ensures
        r == contains_ci(text@, pat@),
{
    let ghost ft = folded_seq(text@);
    let ghost fp = folded_seq(pat@);
    if pat.len() == 0 {
        proof {
            assert(ft.subrange(0, 0) =~= fp);
            assert(matches_at(ft, fp, 0));
        }
        return true;
    }
    if pat.len() > text.len() {
        proof {
            assert(forall|i: int| !matches_at(ft, fp, i));
        }
        return false;
    }
    let last: usize = text.len() - pat.len();
    let mut i: usize = 0;
    while i <= last
        invariant
            1 <= pat.len() <= text.len(),
            last == text.len() - pat.len(),
            i <= last + 1,
            ft == folded_seq(text@),
            fp == folded_seq(pat@),
            forall|m: int| 0 <= m < i ==> !matches_at(ft, fp, m),
        decreases last + 1 - i,
    {
        if match_ci_at(text, pat, i) {
            return true;
        }
        i += 1;
    }
    proof {
        assert(forall|m: int| m > last ==> !matches_at(ft, fp, m));
    }
    false
}

/// Appends every character of `src` to `out`.
pub fn push_all(out: &mut Vec<char>, src: &Vec<char>)
    ensures
        final(out)@ == old(out)@ + src@,
{
    let mut j: usize = 0;
    while j < src.len()
        invariant
            j <= src@.len(),
            out@ == old(out)@ + src@.subrange(0, j as int),
        decreases src@.len() - j,
    {
        out.push(src[j]);
        proof {
            assert(out@ =~= old(out)@ + src@.subrange(0, j as int + 1));
        }
        j += 1;
    }
    proof {
        assert(old(out)@ + src@.subrange(0, src@.len() as int) =~= old(out)@ + src@);
    }
}

/// A fresh vector with the same characters.
pub fn copy_chars(v: &Vec<char>) -> (r: Vec<char>)
    ensures
        r@ == v@,
{
    let mut r: Vec<char> = Vec::new();
    push_all(&mut r, v);
    r
}

/// The characters of a string, in order.
pub fn str_to_chars(s: &str) -> (v: Vec<char>)
    ensures
        v@ == s@,
{
    let n: usize = s.unicode_len();
    let mut v: Vec<char> = Vec::new();
    let mut i: usize = 0;
    while i < n
        invariant
            n == s@.len(),
            i <= n,
            v@ == s@.subrange(0, i as int),
        decreases n - i,
    {
        v.push(s.get_char(i));
        proof {
            assert(v@ =~= s@.subrange(0, i as int + 1));
        }
        i += 1;
    }
    proof {
        assert(s@.subrange(0, n as int) =~= s@);
    }
    v
}

/// Relies on `Iterator::collect` for `String`: collecting characters yields
/// the string with exactly those characters in order.
#[verifier::external_body]
pub fn chars_to_string(v: &Vec<char>) -> (s: String)
    ensures
        s@ == v@,
{
    v.iter().collect()
}

/// What trimming strips at either end: blank space and newlines.
pub open spec fn is_trim_char(c: char) -> bool {
    is_blank_char(c) || c == '\n'
}

fn trim_char(c: char) -> (b: bool)
    ensures
        b == is_trim_char(c),
{
    blank_char(c) || c == '\n'
}

pub open spec fn trim_front(s: Seq<char>) -> Seq<char>
    decreases s.len(),
{
    if s.len() > 0 && is_trim_char(s[0]) {
        trim_front(s.drop_first())
    } else {
        s
    }
}

pub open spec fn trim_back(s: Seq<char>) -> Seq<char>
    decreases s.len(),
{
    if s.len() > 0 && is_trim_char(s[s.len() - 1]) {
        trim_back(s.drop_last())
    } else {
        s
    }
}

/// The text with leading and trailing whitespace removed.
pub open spec fn spec_trim(s: Seq<char>) -> Seq<char> {
    trim_back(trim_front(s))
}

/// Strips whitespace from both ends.
pub fn trim_chars(v: &Vec<char>) -> (out: Vec<char>)
    ensures
        out@ == spec_trim(v@),
{
    let mut a: usize = 0;
    proof {
        assert(v@.skip(0) =~= v@);
    }
    while a < v.len() && trim_char(v[a])
        invariant
            a <= v.len(),
            trim_front(v@) == trim_front(v@.skip(a as int)),
        decreases v.len() - a,
    {
        proof {
            assert(v@.skip(a as int)[0] == v@[a as int]);
            assert(v@.skip(a as int).drop_first() =~= v@.skip(a as int + 1));
        }
        a += 1;
    }
    proof {
        if a == v.len() {
            assert(v@.skip(a as int) =~= Seq::<char>::empty());
        }
        assert(trim_front(v@) == v@.skip(a as int));
    }
    let mut b: usize = v.len();
    proof {
        assert(v@.skip(a as int).subrange(0, (b - a) as int) =~= v@.skip(a as int));
    }
    while b > a && trim_char(v[b - 1])
        invariant
            a <= b <= v.len(),
            trim_front(v@) == v@.skip(a as int),
            trim_back(trim_front(v@)) == trim_back(
                v@.skip(a as int).subrange(0, (b - a) as int),
            ),
        decreases b,
    {
        proof {
            let t = v@.skip(a as int);
            let m = (b - a) as int;
            assert(t.subrange(0, m)[m - 1] == v@[b as int - 1]);
            assert(t.subrange(0, m).drop_last() =~= t.subrange(0, m - 1));
        }
        b -= 1;
    }
    proof {
        let t = v@.skip(a as int);
        let m = (b - a) as int;
        if b == a {
            assert(t.subrange(0, 0) =~= Seq::<char>::empty());
        }
        assert(trim_back(t.subrange(0, m)) == t.subrange(0, m));
    }
    let mut out: Vec<char> = Vec::new();
    let mut i: usize = a;
    while i < b
        invariant
            a <= i <= b <= v.len(),
            out@ == v@.subrange(a as int, i as int),
        decreases b - i,
    {
        out.push(v[i]);
        proof {
            assert(out@ =~= v@.subrange(a as int, i as int + 1));
        }
        i += 1;
    }
    proof {
        assert(v@.subrange(a as int, b as int) =~= v@.skip(a as int).subrange(0, (b - a) as int));
    }
    out
}

/// The result of replacing, left to right, every occurrence of `from` by
/// `to`: the leftmost occurrence is replaced first, and the search resumes
/// after the replacement. An empty `from` leaves the text unchanged.
pub open spec fn spec_replace(s: Seq<char>, from: Seq<char>, to: Seq<char>) -> Seq<char>
    decreases s.len(),
{
    if from.len() == 0 || s.len() < from.len() {
        s
    } else if s.subrange(0, from.len() as int) == from {
        to + spec_replace(s.skip(from.len() as int), from, to)
    } else {
        seq![s[0]] + spec_replace(s.drop_first(), from, to)
    }
}

/// Literal find/replace over character vectors, replacing every occurrence.
pub fn replace_all(text: &Vec<char>, from: &Vec<char>, to: &Vec<char>) -> (out: Vec<char>)
    ensures
        out@ == spec_replace(text@, from@, to@),
{
    let mut out: Vec<char> = Vec::new();
    if from.len() == 0 {
        push_all(&mut out, text);
        return out;
    }
    let mut i: usize = 0;
    proof {
        assert(text@.skip(0) =~= text@);
        assert(out@ + spec_replace(text@, from@, to@) =~= spec_replace(text@, from@, to@));
    }
    while i < text.len()
        invariant
            from@.len() >= 1,
            i <= text.len(),
            spec_replace(text@, from@, to@) == out@ + spec_replace(
                text@.skip(i as int),
                from@,
                to@,
            ),
        decreases text@.len() - i,
    {
        let ghost rest = text@.skip(i as int);
        if from.len() <= text.len() - i && match_eq_at(text, from, i) {
            proof {
                assert(rest.subrange(0, from@.len() as int) =~= text@.subrange(
                    i as int,
                    i as int + from@.len(),
                ));
                assert(rest.skip(from@.len() as int) =~= text@.skip(i as int + from@.len()));
            }
            push_all(&mut out, to);
            i += from.len();
        } else {
            proof {
                if i as int + from@.len() <= text@.len() {
                    assert(rest.subrange(0, from@.len() as int) =~= text@.subrange(
                        i as int,
                        i as int + from@.len(),
                    ));
                }
                assert(rest.drop_first() =~= text@.skip(i as int + 1));
                if rest.len() < from@.len() {
                    // the tail is shorter than the pattern: it stays as it is,
                    // and so does the tail with its first character peeled off
                    assert(spec_replace(rest, from@, to@) == rest);
                    assert(spec_replace(rest.drop_first(), from@, to@) == rest.drop_first());
                    assert(rest =~= seq![rest[0]] + rest.drop_first());
                }
            }
            out.push(text[i]);
            i += 1;
        }
    }
    proof {
        assert(text@.skip(text@.len() as int) =~= Seq::<char>::empty());
        assert(out@ + Seq::<char>::empty() =~= out@);
    }
    out
}

} // verus!
