//! Whitespace cleanup of a raw transcript: each line is trimmed and its
//! interior blank runs collapse to single spaces; lines that clean to
//! nothing are dropped; what remains is joined by single newlines.

use vstd::prelude::*;

verus! {

use crate::text::{is_blank_char, blank_char, push_all};

/// The lines of a text, split at every newline: a text with no newline is
/// one line, each newline ends a line, and what follows the last newline,
/// possibly nothing, is the final line.
pub open spec fn split_lines(s: Seq<char>) -> Seq<Seq<char>>
    decreases s.len(),
{
    if s.len() == 0 {
        seq![Seq::<char>::empty()]
    } else if s[0] == '\n' {
        seq![Seq::<char>::empty()] + split_lines(s.drop_first())
    } else {
        let rest = split_lines(s.drop_first());
        seq![seq![s[0]] + rest[0]] + rest.drop_first()
    }
}

pub proof fn lemma_split_lines_nonempty(s: Seq<char>)
    ensures
        split_lines(s).len() >= 1,
    decreases s.len(),
{
    if s.len() != 0 {
        lemma_split_lines_nonempty(s.drop_first());
    }
}

/// One pass over a line: blanks already passed wait as a pending
/// separator, and a visible character first emits a single space if one is
/// pending and a visible character came before. Leading and trailing
/// blanks thus vanish and interior runs become single spaces.
pub open spec fn clean_rec(l: Seq<char>, started: bool, pending: bool) -> Seq<char>
    decreases l.len(),
{
    if l.len() == 0 {
        Seq::<char>::empty()
    } else if is_blank_char(l[0]) {
        clean_rec(l.drop_first(), started, true)
    } else {
        let sep: Seq<char> = if started && pending {
            seq![' ']
        } else {
            Seq::<char>::empty()
        };
        sep + seq![l[0]] + clean_rec(l.drop_first(), true, false)
    }
}

/// A line with its ends trimmed and interior blank runs collapsed.
pub open spec fn clean_line(l: Seq<char>) -> Seq<char> {
    clean_rec(l, false, false)
}

/// Two already-joined pieces joined by a newline, an empty side giving way
/// to the other.
pub open spec fn join_sep(a: Seq<char>, b: Seq<char>) -> Seq<char> {
    if a.len() == 0 {
        b
    } else if b.len() == 0 {
        a
    } else {
        a + seq!['\n'] + b
    }
}

/// Cleaned lines joined by single newlines, lines that clean to nothing
/// dropped.
pub open spec fn clean_join(ls: Seq<Seq<char>>) -> Seq<char>
    decreases ls.len(),
{
    if ls.len() == 0 {
        Seq::<char>::empty()
    } else {
        join_sep(clean_line(ls[0]), clean_join(ls.drop_first()))
    }
}

/// Whitespace cleanup of a whole transcript: trim each line, drop lines
/// that become empty, collapse interior blank runs to single spaces.
pub open spec fn spec_clean_ws(s: Seq<char>) -> Seq<char> {
    clean_join(split_lines(s))
}

fn split_lines_exec(text: &Vec<char>) -> (lines: Vec<Vec<char>>)
    ensures
        lines.deep_view() == split_lines(text@),
{
    let mut done: Vec<Vec<char>> = Vec::new();
    let mut cur: Vec<char> = Vec::new();
    let mut i: usize = 0;
    proof {
        assert(text@.skip(0) =~= text@);
        assert(done.deep_view() =~= Seq::<Seq<char>>::empty());
    }
    while i < text.len()
        invariant
            i <= text.len(),
            split_lines(text@) == done.deep_view() + seq![
                cur@ + split_lines(text@.skip(i as int))[0],
            ] + split_lines(text@.skip(i as int)).drop_first(),
        decreases text.len() - i,
    {
        let ghost rest = text@.skip(i as int);
        let ghost rest1 = text@.skip(i as int + 1);
        proof {
            assert(rest[0] == text@[i as int]);
            assert(rest.drop_first() =~= rest1);
            lemma_split_lines_nonempty(rest1);
        }
        let ghost r1 = split_lines(rest1);
        let c = text[i];
        if c == '\n' {
            let ghost done_pre = done.deep_view();
            let ghost cur_pre = cur@;
            proof {
                assert(split_lines(rest) == seq![Seq::<char>::empty()] + r1);
                assert(r1 =~= seq![r1[0]] + r1.drop_first());
            }
            done.push(cur);
            cur = Vec::new();
            proof {
                assert(done.deep_view() =~~= done_pre.push(cur_pre));
                assert(done_pre + seq![cur_pre + split_lines(rest)[0]] + split_lines(
                    rest,
                ).drop_first() =~= done.deep_view() + seq![cur@ + r1[0]] + r1.drop_first());
            }
        } else {
            let ghost cur_pre = cur@;
            proof {
                assert(split_lines(rest) == seq![seq![rest[0]] + r1[0]] + r1.drop_first());
            }
            cur.push(c);
            proof {
                assert(cur@ + r1[0] =~= cur_pre + (seq![c] + r1[0]));
                assert(done.deep_view() + seq![cur_pre + split_lines(rest)[0]] + split_lines(
                    rest,
                ).drop_first() =~= done.deep_view() + seq![cur@ + r1[0]] + r1.drop_first());
            }
        }
        i += 1;
    }
    let ghost done_pre = done.deep_view();
    let ghost cur_pre = cur@;
    proof {
        assert(text@.skip(text@.len() as int) =~= Seq::<char>::empty());
        assert(split_lines(Seq::<char>::empty()) == seq![Seq::<char>::empty()]);
        assert(cur_pre + Seq::<char>::empty() =~= cur_pre);
        assert(done_pre + seq![cur_pre] + seq![Seq::<char>::empty()].drop_first()
            =~= done_pre.push(cur_pre));
    }
    done.push(cur);
    proof {
        assert(done.deep_view() =~~= done_pre.push(cur_pre));
    }
    done
}

fn clean_line_exec(l: &Vec<char>) -> (out: Vec<char>)
    ensures
        out@ == clean_line(l@),
{
    let mut out: Vec<char> = Vec::new();
    let mut started: bool = false;
    let mut pending: bool = false;
    let mut i: usize = 0;
    proof {
        assert(l@.skip(0) =~= l@);
    }
    while i < l.len()
        invariant
            i <= l.len(),
            clean_line(l@) == out@ + clean_rec(l@.skip(i as int), started, pending),
        decreases l.len() - i,
    {
        let ghost rest = l@.skip(i as int);
        proof {
            assert(rest[0] == l@[i as int]);
            assert(rest.drop_first() =~= l@.skip(i as int + 1));
        }
        let c = l[i];
        if blank_char(c) {
            pending = true;
        } else {
            let ghost out_pre = out@;
            if started && pending {
                out.push(' ');
                out.push(c);
                proof {
                    assert(out@ =~= out_pre + (seq![' '] + seq![c]));
                }
            } else {
                out.push(c);
                proof {
                    assert(out@ =~= out_pre + (Seq::<char>::empty() + seq![c]));
                }
            }
            started = true;
            pending = false;
        }
        i += 1;
    }
    proof {
        assert(l@.skip(l@.len() as int) =~= Seq::<char>::empty());
        assert(out@ + Seq::<char>::empty() =~= out@);
    }
    out
}

fn clean_join_exec(lines: &Vec<Vec<char>>) -> (out: Vec<char>)
    ensures
        out@ == clean_join(lines.deep_view()),
{
    let mut out: Vec<char> = Vec::new();
    let mut k: usize = 0;
    proof {
        assert(lines.deep_view().skip(0) =~= lines.deep_view());
    }
    while k < lines.len()
        invariant
            k <= lines.len(),
            lines.deep_view().len() == lines.len(),
            clean_join(lines.deep_view()) == join_sep(
                out@,
                clean_join(lines.deep_view().skip(k as int)),
            ),
        decreases lines.len() - k,
    {
        let ghost dv = lines.deep_view();
        let ghost rest = dv.skip(k as int);
        proof {
            assert(rest[0] == dv[k as int]);
            assert(dv[k as int] =~= lines@[k as int]@);
            assert(rest.drop_first() =~= dv.skip(k as int + 1));
        }
        let cleaned = clean_line_exec(&lines[k]);
        let ghost h = clean_line(dv[k as int]);
        let ghost tail = clean_join(dv.skip(k as int + 1));
        proof {
            assert(clean_join(rest) == join_sep(h, tail));
        }
        if cleaned.len() > 0 {
            if out.len() == 0 {
                out = cleaned;
            } else {
                let ghost out_pre = out@;
                out.push('\n');
                push_all(&mut out, &cleaned);
                proof {
                    // joining associates: what was built, a newline and the
                    // head line read the same grouped either way
                    assert(out@ =~= out_pre + seq!['\n'] + h);
                    assert(join_sep(out@, tail) =~= join_sep(out_pre, join_sep(h, tail)));
                }
            }
        }
        k += 1;
    }
    proof {
        assert(lines.deep_view().skip(lines.deep_view().len() as int) =~= Seq::<Seq<char>>::empty());
        assert(join_sep(out@, Seq::<char>::empty()) =~= out@);
    }
    out
}

/// Whitespace cleanup over a character vector.
pub fn clean_ws(text: &Vec<char>) -> (out: Vec<char>)
    ensures
        out@ == spec_clean_ws(text@),
{
    let lines = split_lines_exec(text);
    clean_join_exec(&lines)
}

} // verus!
