//! The bot's settings, and the parsing of the two settings that are not plain values.

use vstd::prelude::*;
use crate::fmt::{parse_formatter_spec, Formatter};
use crate::text::{split_char, split_spec, to_chars, views};

verus! {

/// A chat id, as stable diffusion timeouts are configured by it.
pub type SdId = i64;

/// What the bot is configured with.
pub struct Settings {
    pub bot_token: String,
    pub oleg_prompt: String,
    pub oleg_memory_size: usize,
    pub openai_token: String,
    pub bing_api_key: String,
    pub google_service_account_json: String,
    pub sd_timeout: u64,
    pub sd_timeout_list: Vec<SdId>,
    pub sd_timeout_message: Option<Formatter>,
    pub sd_url: String,
}

/// Why a decimal integer did not parse, as `std::num::IntErrorKind` tells it.
#[derive(Debug, Clone, Copy, PartialEq, Eq, Structural)]
pub enum IntParseError {
    Empty,
    InvalidDigit,
    PosOverflow,
    NegOverflow,
}

impl IntParseError {
    /// The text that `ParseIntError` displays for this kind.
    pub fn message(&self) -> (res: &'static str)
        ensures
            res@ == int_error_message(*self),
    {
        match self {
            IntParseError::Empty => "cannot parse integer from empty string",
            IntParseError::InvalidDigit => "invalid digit found in string",
            IntParseError::PosOverflow => "number too large to fit in target type",
            IntParseError::NegOverflow => "number too small to fit in target type",
        }
    }
}

/// The display text of each parse error.
pub open spec fn int_error_message(e: IntParseError) -> Seq<char> {
    match e {
        IntParseError::Empty => "cannot parse integer from empty string"@,
        IntParseError::InvalidDigit => "invalid digit found in string"@,
        IntParseError::PosOverflow => "number too large to fit in target type"@,
        IntParseError::NegOverflow => "number too small to fit in target type"@,
    }
}

pub open spec fn is_digit(c: char) -> bool {
    '0' <= c && c <= '9'
}

pub open spec fn digit_value(c: char) -> int {
    c as int - '0' as int
}

/// Reading the digits `d` from left to right, stopping at the first one that is not a digit
/// or that takes the value out of the range of `i64`; `negative` accumulates downwards.
pub open spec fn scan_digits(d: Seq<char>, negative: bool) -> Result<int, IntParseError>
    decreases d.len(),
{
    if d.len() == 0 {
        Ok(0)
    } else {
        match scan_digits(d.drop_last(), negative) {
            Err(e) => Err(e),
            Ok(v) => if !is_digit(d.last()) {
                Err(IntParseError::InvalidDigit)
            } else {
                let w = if negative {
                    v * 10 - digit_value(d.last())
                } else {
                    v * 10 + digit_value(d.last())
                };
                if w > i64::MAX {
                    Err(IntParseError::PosOverflow)
                } else if w < i64::MIN {
                    Err(IntParseError::NegOverflow)
                } else {
                    Ok(w)
                }
            },
        }
    }
}

/// What `i64::from_str` gives for `s`: an optional sign, then decimal digits.
pub open spec fn parse_i64_spec(s: Seq<char>) -> Result<int, IntParseError> {
    if s.len() == 0 {
        Err(IntParseError::Empty)
    } else if (s[0] == '+' || s[0] == '-') && s.len() == 1 {
        Err(IntParseError::InvalidDigit)
    } else if s[0] == '-' {
        scan_digits(s.drop_first(), true)
    } else if s[0] == '+' {
        scan_digits(s.drop_first(), false)
    } else {
        scan_digits(s, false)
    }
}

/// Reads the digits `cs[start..end]` as `scan_digits` does.
fn scan_digits_exec(cs: &Vec<char>, start: usize, negative: bool) -> (res: Result<i64, IntParseError>)
    requires
        start <= cs.len(),
    ensures
        match (res, scan_digits(cs@.subrange(start as int, cs.len() as int), negative)) {
            (Ok(v), Ok(w)) => v == w,
            (Err(e), Err(f)) => e == f,
            _ => false,
        },
{
    let n = cs.len();
    let mut acc: i64 = 0;
    let mut i: usize = start;
    while i < n
        invariant
            n == cs.len(),
            start <= i <= n,
            scan_digits(cs@.subrange(start as int, i as int), negative) == Ok::<int, IntParseError>(
                acc as int,
            ),
            negative ==> acc <= 0,
            !negative ==> acc >= 0,
        decreases n - i,
    {
        let ghost prefix = cs@.subrange(start as int, i + 1);
        assert(prefix.drop_last() =~= cs@.subrange(start as int, i as int));
        let c = cs[i];
        if !('0' <= c && c <= '9') {
            proof {
                assert(prefix.last() == c);
                assert(cs@.subrange(start as int, n as int).subrange(0, i - start + 1) =~= prefix);
                lemma_scan_prefix_error(cs@.subrange(start as int, n as int), (i - start) as int, negative);
            }
            return Err(IntParseError::InvalidDigit);
        }
        let d = ((c as u32) - ('0' as u32)) as i64;
        assert(d == digit_value(c));
        assert(prefix.last() == c);
        let next = if negative {
            match acc.checked_mul(10) {
                Some(m) => m.checked_sub(d),
                None => None,
            }
        } else {
            match acc.checked_mul(10) {
                Some(m) => m.checked_add(d),
                None => None,
            }
        };
        match next {
            Some(v) => {
                acc = v;
            },
            None => {
                proof {
                    assert(cs@.subrange(start as int, n as int).subrange(0, i - start + 1)
                        =~= prefix);
                    assert(scan_digits(prefix, negative) is Err);
                    lemma_scan_prefix_error(
                        cs@.subrange(start as int, n as int),
                        (i - start) as int,
                        negative,
                    );
                }
                if negative {
                    return Err(IntParseError::NegOverflow);
                } else {
                    return Err(IntParseError::PosOverflow);
                }
            },
        }
        i = i + 1;
    }
    assert(cs@.subrange(start as int, n as int) =~= cs@.subrange(start as int, i as int));
    Ok(acc)
}

/// Once a prefix of the digits ends in an error, the whole scan ends in that error.
proof fn lemma_scan_prefix_error(d: Seq<char>, k: int, negative: bool)
    requires
        0 <= k < d.len(),
        scan_digits(d.subrange(0, k + 1), negative) is Err,
    ensures
        scan_digits(d, negative) == scan_digits(d.subrange(0, k + 1), negative),
    decreases d.len(),
{
    if k + 1 < d.len() {
        assert(d.drop_last().subrange(0, k + 1) =~= d.subrange(0, k + 1));
        lemma_scan_prefix_error(d.drop_last(), k, negative);
    } else {
        assert(d.subrange(0, k + 1) =~= d);
    }
}

/// `i64::from_str`: an optional `+` or `-`, then decimal digits.
pub fn parse_i64(s: &str) -> (res: Result<i64, IntParseError>)
    ensures
        match (res, parse_i64_spec(s@)) {
            (Ok(v), Ok(w)) => v == w,
            (Err(e), Err(f)) => e == f,
            _ => false,
        },
{
    let cs = to_chars(s);
    let n = cs.len();
    if n == 0 {
        return Err(IntParseError::Empty);
    }
    let c0 = cs[0];
    if (c0 == '+' || c0 == '-') && n == 1 {
        return Err(IntParseError::InvalidDigit);
    }
    if c0 == '-' {
        assert(cs@.subrange(1, n as int) =~= cs@.drop_first());
        scan_digits_exec(&cs, 1, true)
    } else if c0 == '+' {
        assert(cs@.subrange(1, n as int) =~= cs@.drop_first());
        scan_digits_exec(&cs, 1, false)
    } else {
        assert(cs@.subrange(0, n as int) =~= cs@);
        scan_digits_exec(&cs, 0, false)
    }
}

/// What parsing a comma-separated list of chat ids gives: every piece as an `i64`,
/// or the error of the first piece that does not parse.
pub open spec fn parse_id_list_spec(pieces: Seq<Seq<char>>) -> Result<Seq<int>, IntParseError>
    decreases pieces.len(),
{
    if pieces.len() == 0 {
        Ok(Seq::<int>::empty())
    } else {
        match parse_id_list_spec(pieces.drop_last()) {
            Err(e) => Err(e),
            Ok(ids) => match parse_i64_spec(pieces.last()) {
                Err(e) => Err(e),
                Ok(id) => Ok(ids.push(id)),
            },
        }
    }
}

proof fn lemma_id_list_prefix_error(pieces: Seq<Seq<char>>, k: int)
    requires
        0 <= k < pieces.len(),
        parse_id_list_spec(pieces.subrange(0, k + 1)) is Err,
    ensures
        parse_id_list_spec(pieces) == parse_id_list_spec(pieces.subrange(0, k + 1)),
    decreases pieces.len(),
{
    if k + 1 < pieces.len() {
        assert(pieces.drop_last().subrange(0, k + 1) =~= pieces.subrange(0, k + 1));
        lemma_id_list_prefix_error(pieces.drop_last(), k);
    } else {
        assert(pieces.subrange(0, k + 1) =~= pieces);
    }
}

/// Parses the `sd_timeout_list` setting: chat ids separated by commas.
pub fn parse_sd_timeout_list(s: &str) -> (res: Result<Vec<SdId>, IntParseError>)
    ensures
        match (res, parse_id_list_spec(split_spec(s@, ','))) {
            (Ok(ids), Ok(spec_ids)) => ids@.map_values(|x: i64| x as int) == spec_ids,
            (Err(e), Err(f)) => e == f,
            _ => false,
        },
{
    let pieces = split_char(s, ',');
    let ghost ps = views(pieces@);
    let mut ids: Vec<SdId> = Vec::new();
    let mut i: usize = 0;
    assert(ps.subrange(0, 0) =~= Seq::<Seq<char>>::empty());
    assert(ids@.map_values(|x: i64| x as int) =~= Seq::<int>::empty());
    while i < pieces.len()
        invariant
            ps == views(pieces@),
            ps == split_spec(s@, ','),
            i <= pieces.len(),
            parse_id_list_spec(ps.subrange(0, i as int)) == Ok::<Seq<int>, IntParseError>(
                ids@.map_values(|x: i64| x as int),
            ),
        decreases pieces.len() - i,
    {
        let ghost prefix = ps.subrange(0, i + 1);
        assert(prefix.drop_last() =~= ps.subrange(0, i as int));
        assert(prefix.last() == pieces@[i as int]@);
        match parse_i64(pieces[i].as_str()) {
            Ok(id) => {
                let ghost old_ids = ids@;
                ids.push(id);
                assert(ids@.map_values(|x: i64| x as int) =~= old_ids.map_values(|x: i64| x as int).push(id as int));
            },
            Err(e) => {
                proof {
                    lemma_id_list_prefix_error(ps, i as int);
                }
                return Err(e);
            },
        }
        i = i + 1;
    }
    assert(ps.subrange(0, i as int) =~= ps);
    Ok(ids)
}

/// Parses the optional `sd_timeout_message` setting as a format string.
pub fn parse_sd_timeout_message(raw: Option<String>) -> (res: Result<Option<Formatter>, &'static str>)
    ensures
        match raw {
            None => res == Ok::<Option<Formatter>, &'static str>(None),
            Some(r) => match (res, parse_formatter_spec(r@)) {
                (Ok(Some(f)), Ok(parts)) => f@ == parts,
                (Err(e), Err(msg)) => e@ == msg,
                _ => false,
            },
        },
{
    match raw {
        None => Ok(None),
        Some(r) => match Formatter::parse(r.as_str()) {
            Ok(f) => Ok(Some(f)),
            Err(e) => Err(e),
        },
    }
}

} // verus!
