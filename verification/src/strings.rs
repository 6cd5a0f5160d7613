//! Small string helpers: ASCII case mapping and decimal parsing.

use vstd::prelude::*;
use vstd::string::*;

verus! {

/// ASCII lowercase letters map to their uppercase counterparts; every other
/// character is unchanged.
pub open spec fn upper_char(c: char) -> char {
    if 97 <= c as u32 && c as u32 <= 122 {
        ((c as u32) - 32) as char
    } else {
        c
    }
}

pub open spec fn upper_chars(s: Seq<char>) -> Seq<char> {
    s.map_values(|c: char| upper_char(c))
}

/// Relies on `str::to_ascii_uppercase`: ASCII lowercase letters are mapped
/// to uppercase and all other characters are copied unchanged.
#[verifier::external_body]
pub(crate) fn ascii_uppercase(s: &str) -> (r: String)
    ensures
        r@ == upper_chars(s@),
{
    s.to_ascii_uppercase()
}

/// True iff `s` is a non-empty run of ASCII decimal digits.
pub open spec fn is_dec_digits(s: Seq<char>) -> bool {
    s.len() > 0 && forall|i: int| 0 <= i < s.len() ==> 48 <= #[trigger] (s[i] as u32) <= 57
}

/// The number denoted by a run of decimal digits.
pub open spec fn dec_val(s: Seq<char>) -> int
    decreases s.len(),
{
    if s.len() == 0 {
        0
    } else {
        dec_val(s.drop_last()) * 10 + (s.last() as u32 - 48)
    }
}

proof fn lemma_dec_val_prefix_le(s: Seq<char>, i: int, j: int)
    requires
        0 <= i <= j <= s.len(),
        forall|k: int| 0 <= k < s.len() ==> 48 <= #[trigger] (s[k] as u32) <= 57,
        dec_val(s.subrange(0, i)) >= 0,
    ensures
        dec_val(s.subrange(0, i)) <= dec_val(s.subrange(0, j)),
        dec_val(s.subrange(0, j)) >= 0,
    decreases j - i,
{
    if i < j {
        let p = s.subrange(0, j - 1);
        let q = s.subrange(0, j);
        assert(q.drop_last() =~= p);
        lemma_dec_val_prefix_le(s, i, j - 1);
        assert(dec_val(q) == dec_val(p) * 10 + (q.last() as u32 - 48));
        assert(dec_val(p) * 10 >= dec_val(p)) by (nonlinear_arith)
            requires
                dec_val(p) >= 0,
        ;
    }
}

/// Parses a non-empty ASCII decimal string into a `u64`.  Returns `None`
/// exactly when the string is not a digit run or its value does not fit.
pub fn parse_u64(s: &str) -> (r: Option<u64>)
    ensures
        r matches Some(v) ==> is_dec_digits(s@) && v == dec_val(s@),
        r is None ==> !is_dec_digits(s@) || dec_val(s@) > u64::MAX,
{
    let n = s.unicode_len();
    if n == 0 {
        return None;
    }
    let mut value: u128 = 0;
    let mut i: usize = 0;
    while i < n
        invariant
            n == s@.len(),
            0 < n,
            0 <= i <= n,
            value == dec_val(s@.subrange(0, i as int)),
            value <= u64::MAX,
            forall|k: int| 0 <= k < i ==> 48 <= #[trigger] (s@[k] as u32) <= 57,
        decreases n - i,
    {
        let c = s.get_char(i);
        let d = c as u32;
        if d < 48 || d > 57 {
            return None;
        }
        proof {
            assert(s@.subrange(0, i + 1).drop_last() =~= s@.subrange(0, i as int));
        }
        value = value * 10 + ((d - 48) as u128);
        i += 1;
        if value > u64::MAX as u128 {
            proof {
                if is_dec_digits(s@) {
                    assert(s@.subrange(0, s@.len() as int) =~= s@);
                    lemma_dec_val_prefix_le(s@, i as int, s@.len() as int);
                }
            }
            return None;
        }
    }
    proof {
        assert(s@.subrange(0, n as int) =~= s@);
    }
    Some(value as u64)
}


/// ASCII whitespace, as the command layer splits on it.
pub open spec fn is_ws(c: char) -> bool {
    c == ' ' || c == '\t' || c == '\n' || c == '\r'
}

/// The length of the leading run of non-whitespace characters.
pub open spec fn token_len(s: Seq<char>) -> int
    decreases s.len(),
{
    if s.len() == 0 {
        0
    } else if is_ws(s[0]) {
        0
    } else {
        1 + token_len(s.drop_first())
    }
}

pub proof fn lemma_token_len_bounds(s: Seq<char>)
    ensures
        0 <= token_len(s) <= s.len(),
    decreases s.len(),
{
    if s.len() > 0 && !is_ws(s[0]) {
        lemma_token_len_bounds(s.drop_first());
    }
}

/// The leading token runs to the first whitespace character (or the end).
proof fn lemma_token_len_run(s: Seq<char>, j: int)
    requires
        0 <= j <= s.len(),
        forall|m: int| 0 <= m < j ==> !is_ws(#[trigger] s[m]),
        j == s.len() || is_ws(s[j]),
    ensures
        token_len(s) == j,
    decreases s.len(),
{
    if j > 0 {
        let t = s.drop_first();
        assert forall|m: int| 0 <= m < j - 1 implies !is_ws(#[trigger] t[m]) by {
            assert(t[m] == s[m + 1]);
        }
        if j - 1 < t.len() {
            assert(t[j - 1] == s[j]);
        }
        lemma_token_len_run(t, j - 1);
    }
}

/// The whitespace-separated tokens of a string, in order.
pub open spec fn ws_tokens(s: Seq<char>) -> Seq<Seq<char>>
    decreases s.len(),
    via ws_tokens_decreases
{
    if s.len() == 0 {
        Seq::empty()
    } else if is_ws(s[0]) {
        ws_tokens(s.drop_first())
    } else {
        seq![s.take(token_len(s))] + ws_tokens(s.skip(token_len(s)))
    }
}

#[via_fn]
proof fn ws_tokens_decreases(s: Seq<char>) {
    if s.len() > 0 && !is_ws(s[0]) {
        lemma_token_len_bounds(s.drop_first());
        lemma_token_len_bounds(s);
    }
}

fn is_ws_char(c: char) -> (r: bool)
    ensures
        r == is_ws(c),
{
    c == ' ' || c == '\t' || c == '\n' || c == '\r'
}

/// Splits a string into its whitespace-separated tokens.
pub fn split_whitespace_vec(s: &str) -> (r: Vec<String>)
    ensures
        r@.len() == ws_tokens(s@).len(),
        forall|k: int| 0 <= k < r@.len() ==> r@[k]@ == ws_tokens(s@)[k],
{
    let n = s.unicode_len();
    let mut r: Vec<String> = Vec::new();
    let mut i: usize = 0;
    proof {
        assert(s@.skip(0) =~= s@);
        assert(strs_view(r@) =~= Seq::<Seq<char>>::empty());
        assert(Seq::<Seq<char>>::empty() + ws_tokens(s@) =~= ws_tokens(s@));
    }
    while i < n
        invariant
            n == s@.len(),
            0 <= i <= n,
            ws_tokens(s@) == strs_view(r@) + ws_tokens(s@.skip(i as int)),
        decreases n - i,
    {
        let c = s.get_char(i);
        if is_ws_char(c) {
            proof {
                assert(s@.skip(i as int)[0] == s@[i as int]);
                assert(s@.skip(i as int).drop_first() =~= s@.skip(i as int + 1));
            }
            i += 1;
        } else {
            let mut j: usize = i + 1;
            while j < n
                invariant
                    n == s@.len(),
                    0 <= i < j <= n,
                    forall|m: int| i <= m < j ==> !is_ws(#[trigger] s@[m]),
                ensures
                    i < j <= n,
                    forall|m: int| i <= m < j ==> !is_ws(#[trigger] s@[m]),
                    j == n || is_ws(s@[j as int]),
                decreases n - j,
            {
                if is_ws_char(s.get_char(j)) {
                    break ;
                }
                j += 1;
            }
            let ghost pre = r@;
            let token = String::from_str(s.substring_char(i, j));
            r.push(token);
            proof {
                let rest = s@.skip(i as int);
                assert forall|m: int| 0 <= m < j - i implies !is_ws(#[trigger] rest[m]) by {
                    assert(rest[m] == s@[i + m]);
                }
                if j < n {
                    assert(rest[j - i] == s@[j as int]);
                }
                lemma_token_len_run(rest, j - i);
                assert(rest.take(j - i) =~= s@.subrange(i as int, j as int));
                assert(rest.skip(j - i) =~= s@.skip(j as int));
                assert(strs_view(r@) =~= strs_view(pre) + seq![s@.subrange(i as int, j as int)]);
                assert(strs_view(pre) + (seq![s@.subrange(i as int, j as int)] + ws_tokens(
                    s@.skip(j as int),
                )) =~= (strs_view(pre) + seq![s@.subrange(i as int, j as int)]) + ws_tokens(
                    s@.skip(j as int),
                ));
            }
            i = j;
        }
    }
    proof {
        assert(s@.skip(n as int) =~= Seq::<char>::empty());
        assert(strs_view(r@) + ws_tokens(s@.skip(n as int)) =~= strs_view(r@));
    }
    r
}

/// The views of a sequence of strings.
pub open spec fn strs_view(v: Seq<String>) -> Seq<Seq<char>> {
    Seq::new(v.len(), |i: int| v[i]@)
}

} // verus!
