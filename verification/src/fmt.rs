//! A one-placeholder format string: `"... {} ..."` filled with a single value.

use vstd::prelude::*;
use crate::text::{concat, contains, find_spec, occurs_at, split_once, split_once_spec};

verus! {

/// A format string split at its one `{}`.
pub struct Formatter {
    first: String,
    second: String,
}

impl View for Formatter {
    /// The text before and the text after the placeholder.
    type V = (Seq<char>, Seq<char>);

    closed spec fn view(&self) -> (Seq<char>, Seq<char>) {
        (self.first@, self.second@)
    }
}

/// The placeholder that a format string holds once.
pub open spec fn placeholder() -> Seq<char> {
    seq!['{', '}']
}

/// What parsing `s` gives: the parts around the first `{}`, or the error text.
pub open spec fn parse_formatter_spec(s: Seq<char>) -> Result<(Seq<char>, Seq<char>), Seq<char>> {
    match split_once_spec(s, placeholder()) {
        None => Err("no `{}` in format string"@),
        Some((first, second)) => if find_spec(second, placeholder()) is Some {
            Err("more than one `{}` in format string"@)
        } else {
            Ok((first, second))
        },
    }
}

impl Formatter {
    /// Parses a format string that holds exactly one `{}`.
    pub fn parse(s: &str) -> (res: Result<Formatter, &'static str>)
        ensures
            match (res, parse_formatter_spec(s@)) {
                (Ok(f), Ok(parts)) => f@ == parts,
                (Err(e), Err(msg)) => e@ == msg,
                _ => false,
            },
    {
        let pat = "{}";
        proof {
            reveal_strlit("{}");
            assert(pat@ =~= placeholder());
        }
        match split_once(s, pat) {
            None => Err("no `{}` in format string"),
            Some((first, second)) => {
                if contains(second.as_str(), pat) {
                    Err("more than one `{}` in format string")
                } else {
                    Ok(Formatter { first, second })
                }
            },
        }
    }

    /// The format string with `value` in place of its `{}`.
    pub fn format(&self, value: &str) -> (res: String)
        ensures
            res@ == self@.0 + value@ + self@.1,
    {
        let s = concat(self.first.as_str(), value);
        concat(s.as_str(), self.second.as_str())
    }
}

impl std::str::FromStr for Formatter {
    type Err = &'static str;

    fn from_str(s: &str) -> (res: Result<Self, Self::Err>)
        ensures
            match (res, parse_formatter_spec(s@)) {
                (Ok(f), Ok(parts)) => f@ == parts,
                (Err(e), Err(msg)) => e@ == msg,
                _ => false,
            },
    {
        Formatter::parse(s)
    }
}

proof fn lemma_first_occurrence(s: Seq<char>, p: Seq<char>, k: int)
    requires
        occurs_at(s, p, k),
        forall|j: int| 0 <= j < k ==> !occurs_at(s, p, j),
    ensures
        find_spec(s, p) == Some(k),
{
    crate::text::lemma_find_spec(s, p);
}

proof fn lemma_no_early_occurrence(a: Seq<char>, b: Seq<char>, j: int)
    requires
        find_spec(a, placeholder()) is None,
        0 <= j < a.len(),
    ensures
        !occurs_at(a + placeholder() + b, placeholder(), j),
{
    let p = placeholder();
    let s = a + p + b;
    crate::text::lemma_find_spec(a, p);
    if occurs_at(s, p, j) {
        let w = s.subrange(j, j + 2);
        if j + 2 <= a.len() {
            assert(a.subrange(j, j + 2) =~= w);
            assert(occurs_at(a, p, j));
        } else {
            assert(w[1] == s[a.len() as int]);
            assert(s[a.len() as int] == '{');
            assert(w[1] == p[1]);
        }
    }
}

proof fn lemma_no_occurrence_across(a: Seq<char>, b: Seq<char>)
    requires
        find_spec(a, placeholder()) is None,
        find_spec(b, placeholder()) is None,
    ensures
        find_spec(a + placeholder() + b, placeholder()) == Some(a.len() as int),
        split_once_spec(a + placeholder() + b, placeholder()) == Some((a, b)),
{
    let p = placeholder();
    let s = a + p + b;
    assert(s.subrange(a.len() as int, a.len() + 2int) =~= p);
    assert forall|j: int| 0 <= j < a.len() implies !occurs_at(s, p, j) by {
        lemma_no_early_occurrence(a, b, j);
    }
    lemma_first_occurrence(s, p, a.len() as int);
    assert(s.subrange(0, a.len() as int) =~= a);
    assert(s.subrange(a.len() + 2int, s.len() as int) =~= b);
}

/// A format string made of text without `{}`, then `{}`, then text without `{}`, parses,
/// and formatting a value with it puts the value where the `{}` stood.
pub proof fn law_format_fills_placeholder(a: Seq<char>, b: Seq<char>, value: Seq<char>)
    requires
        find_spec(a, placeholder()) is None,
        find_spec(b, placeholder()) is None,
    ensures
        parse_formatter_spec(a + placeholder() + b) == Ok::<(Seq<char>, Seq<char>), Seq<char>>(
            (a, b),
        ),
        ({
            let parts = parse_formatter_spec(a + placeholder() + b)->Ok_0;
            parts.0 + value + parts.1 == a + value + b
        }),
{
    lemma_no_occurrence_across(a, b);
}

} // verus!
