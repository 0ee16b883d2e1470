//! Character-level text helpers: extracting characters, classifying digits,
//! and reading small unsigned numbers the way the standard parser does
//! (an optional leading plus sign, then decimal digits).

use vstd::prelude::*;

verus! {

/// Relies on String::push: appends the given character to the end of the
/// string.
pub assume_specification[ String::push ](s: &mut String, c: char)
    ensures
        final(s)@ == old(s)@.push(c),
;

/// The characters of a string as a vector.
pub fn chars_of(s: &str) -> (v: Vec<char>)
    ensures
        v@ == s@,
{
    let n = s.unicode_len();
    let mut v: Vec<char> = Vec::new();
    let mut i: usize = 0;
    while i < n
        invariant
            i <= n,
            n == s@.len(),
            v@ =~= s@.subrange(0, i as int),
        decreases n - i,
    {
        let c = s.get_char(i);
        v.push(c);
        i += 1;
        proof {
            assert(v@ =~= s@.subrange(0, i as int));
        }
    }
    proof {
        assert(v@ =~= s@);
    }
    v
}

pub open spec fn is_digit_char(c: char) -> bool {
    '0' <= c && c <= '9'
}

pub open spec fn digit_value(c: char) -> int {
    c as int - '0' as int
}

pub open spec fn spec_all_digits(s: Seq<char>) -> bool {
    forall|i: int| 0 <= i < s.len() ==> is_digit_char(s[i])
}

/// The number written by a digit sequence, most significant first.
pub open spec fn spec_digits_value(s: Seq<char>) -> int
    decreases s.len(),
{
    if s.len() == 0 {
        0
    } else {
        spec_digits_value(s.drop_last()) * 10 + digit_value(s.last())
    }
}

pub proof fn lemma_digits_value_nonneg(s: Seq<char>)
    requires
        spec_all_digits(s),
    ensures
        spec_digits_value(s) >= 0,
    decreases s.len(),
{
    if s.len() > 0 {
        assert(spec_all_digits(s.drop_last()));
        lemma_digits_value_nonneg(s.drop_last());
    }
}

/// A digit string is worth at least any of its prefixes.
pub proof fn lemma_digits_value_prefix(s: Seq<char>, j: int)
    requires
        spec_all_digits(s),
        0 <= j <= s.len(),
    ensures
        spec_digits_value(s) >= spec_digits_value(s.subrange(0, j)),
    decreases s.len() - j,
{
    if j < s.len() {
        let t = s.subrange(0, j + 1);
        assert(t.drop_last() =~= s.subrange(0, j));
        assert(spec_all_digits(t));
        lemma_digits_value_nonneg(t.drop_last());
        assert(spec_digits_value(t) == spec_digits_value(s.subrange(0, j)) * 10 + digit_value(t.last()));
        assert(is_digit_char(t.last()));
        assert(spec_digits_value(t) >= spec_digits_value(s.subrange(0, j)));
        lemma_digits_value_prefix(s, j + 1);
    } else {
        assert(s.subrange(0, j) =~= s);
    }
}

/// What a token means as an unsigned number of at most 255: an optional
/// leading '+', then at least one digit, and a value within range.
pub open spec fn spec_u8_token(s: Seq<char>) -> Option<int> {
    let d = if s.len() > 0 && s[0] == '+' {
        s.drop_first()
    } else {
        s
    };
    if d.len() > 0 && spec_all_digits(d) && spec_digits_value(d) <= 255 {
        Some(spec_digits_value(d))
    } else {
        None
    }
}

/// Reads the characters `from..to` of `v` as an unsigned number up to 255,
/// as the standard parser would (optional '+', one or more digits).
pub fn parse_u8_chars(v: &Vec<char>, from: usize, to: usize) -> (r: Option<u8>)
    requires
        from <= to <= v@.len(),
    ensures
        match r {
            Some(x) => spec_u8_token(v@.subrange(from as int, to as int)) == Some(x as int),
            None => spec_u8_token(v@.subrange(from as int, to as int)) is None,
        },
{
    let ghost tok = v@.subrange(from as int, to as int);
    let start: usize = if to > from && v[from] == '+' {
        from + 1
    } else {
        from
    };
    let ghost d = v@.subrange(start as int, to as int);
    proof {
        if tok.len() > 0 && tok[0] == '+' {
            assert(d =~= tok.drop_first());
        } else {
            assert(d =~= tok);
        }
    }
    if start == to {
        return None;
    }
    let mut acc: u32 = 0;
    let mut i: usize = start;
    while i < to
        invariant
            start <= i <= to <= v@.len(),
            from <= start,
            tok == v@.subrange(from as int, to as int),
            d == (if tok.len() > 0 && tok[0] == '+' {
                tok.drop_first()
            } else {
                tok
            }),
            d == v@.subrange(start as int, to as int),
            d.len() == to - start,
            d.len() > 0,
            spec_all_digits(v@.subrange(start as int, i as int)),
            acc <= 255,
            acc == spec_digits_value(v@.subrange(start as int, i as int)),
        decreases to - i,
    {
        let c = v[i];
        if !(c >= '0' && c <= '9') {
            proof {
                assert(d[i - start] == c);
                assert(!spec_all_digits(d));
            }
            return None;
        }
        let dv: u32 = (c as u32) - 48;
        proof {
            assert(v@.subrange(start as int, (i + 1) as int).drop_last() =~= v@.subrange(
                start as int,
                i as int,
            ));
            assert(spec_all_digits(v@.subrange(start as int, (i + 1) as int)));
        }
        let next: u32 = acc * 10 + dv;
        if next > 255 {
            proof {
                let p = v@.subrange(start as int, (i + 1) as int);
                assert(spec_digits_value(p) == next);
                if spec_all_digits(d) {
                    lemma_digits_value_prefix(d, i + 1 - start);
                    assert(p =~= d.subrange(0, i + 1 - start));
                    assert(spec_digits_value(d) >= spec_digits_value(p));
                }
            }
            return None;
        }
        acc = next;
        i += 1;
    }
    proof {
        assert(v@.subrange(start as int, to as int) =~= d);
    }
    Some(acc as u8)
}

/// ASCII lowercasing of one character; other characters pass unchanged.
pub open spec fn spec_lower_char(c: char) -> char {
    if 'A' <= c && c <= 'Z' {
        (((c as u8) + 32) as u8) as char
    } else {
        c
    }
}

/// ASCII lowercasing of a character sequence.
pub open spec fn spec_lower(s: Seq<char>) -> Seq<char> {
    Seq::new(s.len(), |i: int| spec_lower_char(s[i]))
}

/// The string lowered ASCII-wise: 'A'..'Z' become 'a'..'z', all other
/// characters stay as they are.
pub fn ascii_lower(s: &str) -> (r: String)
    ensures
        r@ == spec_lower(s@),
{
    let n = s.unicode_len();
    let mut out = String::new();
    let mut i: usize = 0;
    while i < n
        invariant
            i <= n,
            n == s@.len(),
            out@ =~= spec_lower(s@).subrange(0, i as int),
        decreases n - i,
    {
        let c = s.get_char(i);
        let lc: char = if c >= 'A' && c <= 'Z' {
            ((c as u8) + 32) as char
        } else {
            c
        };
        out.push(lc);
        i += 1;
        proof {
            assert(out@ =~= spec_lower(s@).subrange(0, i as int));
        }
    }
    proof {
        assert(out@ =~= spec_lower(s@));
    }
    out
}

} // verus!
