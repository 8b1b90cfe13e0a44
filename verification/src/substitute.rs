//! Substitution rules: an ordered list of literal find/replace pairs,
//! applied to the raw transcript in list order, each rule fully before the
//! next.

use vstd::prelude::*;

verus! {

use crate::text::{spec_replace, replace_all, str_to_chars, copy_chars};

/// One literal find/replace rule of the normalization stage.
pub struct SubstitutionRule {
    pub from: String,
    pub to: String,
}

impl View for SubstitutionRule {
    type V = (Seq<char>, Seq<char>);

    open spec fn view(&self) -> (Seq<char>, Seq<char>) {
        (self.from@, self.to@)
    }
}

impl DeepView for SubstitutionRule {
    type V = (Seq<char>, Seq<char>);

    open spec fn deep_view(&self) -> (Seq<char>, Seq<char>) {
        self.view()
    }
}

/// Every rule applied in list order: the first rule replaces all its
/// occurrences before the second rule sees the text.
pub open spec fn spec_apply_rules(s: Seq<char>, rules: Seq<(Seq<char>, Seq<char>)>) -> Seq<char>
    decreases rules.len(),
{
    if rules.len() == 0 {
        s
    } else {
        spec_apply_rules(spec_replace(s, rules[0].0, rules[0].1), rules.drop_first())
    }
}

/// Applies every substitution rule to the text, in list order.
pub fn apply_rules(text: &Vec<char>, rules: &Vec<SubstitutionRule>) -> (out: Vec<char>)
    ensures
        out@ == spec_apply_rules(text@, rules.deep_view()),
{
    let ghost dv = rules.deep_view();
    let mut cur: Vec<char> = copy_chars(text);
    let mut k: usize = 0;
    proof {
        assert(dv.skip(0) =~= dv);
    }
    while k < rules.len()
        invariant
            k <= rules.len(),
            dv == rules.deep_view(),
            dv.len() == rules.len(),
            spec_apply_rules(text@, dv) == spec_apply_rules(cur@, dv.skip(k as int)),
        decreases rules.len() - k,
    {
        let ghost rest = dv.skip(k as int);
        proof {
            assert(rest[0] == dv[k as int]);
            assert(rest.drop_first() =~= dv.skip(k as int + 1));
        }
        let from = str_to_chars(rules[k].from.as_str());
        let to = str_to_chars(rules[k].to.as_str());
        proof {
            assert(dv[k as int] == rules@[k as int].deep_view());
            assert(from@ == dv[k as int].0 && to@ == dv[k as int].1);
        }
        cur = replace_all(&cur, &from, &to);
        k += 1;
    }
    proof {
        assert(dv.skip(dv.len() as int) =~= Seq::<(Seq<char>, Seq<char>)>::empty());
    }
    cur
}

} // verus!
