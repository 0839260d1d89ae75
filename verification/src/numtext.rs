//! Decimal text without floating point: digit-run parsing, score tokens in
//! hundredths (centi-units), and fixed two-decimal formatting.

use vstd::prelude::*;
use vstd::string::StrSliceExecFns;
use vstd::string::StringExecFns;
use crate::ident::is_ascii_digit;
use crate::strutil::idx_of_char;
use crate::strutil::find_char_from;

verus! {

/// Every character of `s` is a decimal digit.
pub open spec fn all_digits(s: Seq<char>) -> bool {
    forall|i: int| 0 <= i < s.len() ==> is_ascii_digit(s[i])
}

/// The numeric value of a digit character.
pub open spec fn digit_val(c: char) -> int {
    c as int - 48
}

/// The value of a string of decimal digits (most significant first).
pub open spec fn dec_val(s: Seq<char>) -> int
    decreases s.len(),
{
    if s.len() == 0 {
        0
    } else {
        dec_val(s.subrange(0, s.len() - 1)) * 10 + digit_val(s[s.len() - 1])
    }
}

pub proof fn lemma_dec_val_nonneg(s: Seq<char>)
    requires
        all_digits(s),
    ensures
        dec_val(s) >= 0,
    decreases s.len(),
{
    if s.len() > 0 {
        lemma_dec_val_nonneg(s.subrange(0, s.len() - 1));
    }
}

pub proof fn lemma_dec_val_prefix(s: Seq<char>, k: int)
    requires
        all_digits(s),
        0 <= k <= s.len(),
    ensures
        dec_val(s) >= dec_val(s.subrange(0, k)),
    decreases s.len() - k,
{
    if k == s.len() {
        assert(s.subrange(0, s.len() as int) =~= s);
    } else {
        let t = s.subrange(0, s.len() - 1);
        assert(t.subrange(0, k) =~= s.subrange(0, k));
        lemma_dec_val_prefix(t, k);
        lemma_dec_val_nonneg(t);
    }
}

/// The numeric value of a digit character, executably.
fn digit_value(c: char) -> (r: u64)
    requires
        is_ascii_digit(c),
    ensures
        r == digit_val(c),
        r <= 9,
{
    (c as u32 - 48) as u64
}

fn digit_check(c: char) -> (r: bool)
    ensures
        r == is_ascii_digit(c),
{
    '0' <= c && c <= '9'
}

/// Largest integer part that keeps a score in hundredths inside `i64`.
pub open spec fn score_int_bound() -> int {
    (i64::MAX - 99) / 100
}

/// Parse a run of digits `s[from..to]` into its value, watching the
/// [`score_int_bound`] overflow bound.
pub(crate) fn parse_digit_run(s: &str, from: usize, to: usize) -> (r: Option<i64>)
    requires
        from <= to <= s@.len(),
        s@.len() <= usize::MAX,
        all_digits(s@.subrange(from as int, to as int)),
    ensures
        match r {
            Some(v) => v == dec_val(s@.subrange(from as int, to as int)) && 0 <= v
                <= score_int_bound(),
            None => dec_val(s@.subrange(from as int, to as int)) > score_int_bound(),
        },
{
    let ghost whole = s@.subrange(from as int, to as int);
    let mut acc: i64 = 0;
    let mut i: usize = from;
    proof {
        assert(s@.subrange(from as int, from as int) =~= Seq::<char>::empty());
    }
    #[verifier::loop_isolation(false)]
    while i < to
        invariant
            from <= i <= to,
            0 <= acc <= score_int_bound(),
            acc == dec_val(s@.subrange(from as int, i as int)),
        decreases to - i,
    {
        let c = s.get_char(i);
        proof {
            assert(whole[i - from] == c);
        }
        let d = digit_value(c);
        let ghost pre = s@.subrange(from as int, i as int);
        let ghost cur = s@.subrange(from as int, i + 1);
        proof {
            assert(cur.subrange(0, cur.len() - 1) =~= pre);
            assert(cur[cur.len() - 1] == c);
        }
        let bound: i64 = (i64::MAX - 99) / 100;
        if acc > (bound - d as i64) / 10 {
            proof {
                assert(dec_val(cur) == acc * 10 + d);
                assert(dec_val(cur) > score_int_bound());
                lemma_dec_val_prefix(whole, i + 1 - from);
                assert(whole.subrange(0, i + 1 - from) =~= cur);
            }
            return None;
        }
        acc = acc * 10 + d as i64;
        i += 1;
    }
    Some(acc)
}

/// The hundredths contributed by a fraction part: its first two digits.
pub open spec fn frac_centi(f: Seq<char>) -> int {
    if f.len() == 0 {
        0
    } else if f.len() == 1 {
        digit_val(f[0]) * 10
    } else {
        digit_val(f[0]) * 10 + digit_val(f[1])
    }
}

/// `t` without one leading sign character.
pub open spec fn unsigned_part(t: Seq<char>) -> Seq<char> {
    if t.len() > 0 && (t[0] == '+' || t[0] == '-') {
        t.subrange(1, t.len() as int)
    } else {
        t
    }
}

/// The integer part of an unsigned decimal token.
pub open spec fn int_part(u: Seq<char>) -> Seq<char> {
    u.subrange(0, idx_of_char(u, '.'))
}

/// The fraction part of an unsigned decimal token (empty without a dot).
pub open spec fn frac_part(u: Seq<char>) -> Seq<char> {
    if idx_of_char(u, '.') == u.len() {
        Seq::empty()
    } else {
        u.subrange(idx_of_char(u, '.') + 1, u.len() as int)
    }
}

/// `t` is a decimal number: an optional sign, digits around at most one dot,
/// and at least one digit.
pub open spec fn is_score_token(t: Seq<char>) -> bool {
    let u = unsigned_part(t);
    let dot = idx_of_char(u, '.');
    &&& u.len() > 0
    &&& all_digits(int_part(u))
    &&& all_digits(frac_part(u))
    &&& (dot > 0 || dot + 1 < u.len())
}

/// The magnitude of a decimal token, in hundredths, its fraction cut after
/// two digits.
pub open spec fn score_token_mag(t: Seq<char>) -> int {
    dec_val(int_part(unsigned_part(t))) * 100 + frac_centi(frac_part(unsigned_part(t)))
}

/// The signed value of a decimal token, in hundredths.
pub open spec fn score_token_val(t: Seq<char>) -> int {
    if t.len() > 0 && t[0] == '-' {
        -score_token_mag(t)
    } else {
        score_token_mag(t)
    }
}

/// The integer part of the token is small enough that its value in
/// hundredths stays inside `i64` whatever two fraction digits follow.
pub open spec fn score_token_fits(t: Seq<char>) -> bool {
    dec_val(int_part(unsigned_part(t))) <= score_int_bound()
}

/// Parse a decimal token into hundredths: `0.92` becomes `92`. The fraction
/// is cut after two digits; a token whose integer part overflows the score
/// range is not a score.
#[verifier::rlimit(60)]
pub fn parse_score_token(t: &str) -> (r: Option<i64>)
    ensures
        match r {
            Some(v) => is_score_token(t@) && score_token_fits(t@) && v == score_token_val(t@),
            None => !is_score_token(t@) || !score_token_fits(t@),
        },
{
    let t_len: usize = t.unicode_len();
    let neg = t_len > 0 && t.get_char(0) == '-';
    let from: usize = if t_len > 0 && (t.get_char(0) == '+' || t.get_char(0) == '-') {
        1
    } else {
        0
    };
    let ghost u = unsigned_part(t@);
    proof {
        assert(u =~= t@.subrange(from as int, t_len as int));
    }
    if from == t_len {
        return None;
    }
    let dot_abs = find_char_from(t, '.', from);
    proof {
        assert(t@.subrange(from as int, t_len as int) =~= u);
    }
    let ghost dot = dot_abs - from;
    proof {
        assert(dot == idx_of_char(u, '.'));
        assert(int_part(u) =~= t@.subrange(from as int, dot_abs as int));
    }
    // the integer part must be all digits
    let mut i: usize = from;
    #[verifier::loop_isolation(false)]
    while i < dot_abs
        invariant
            from <= i <= dot_abs,
            forall|j: int| from <= j < i ==> is_ascii_digit(t@[j]),
        decreases dot_abs - i,
    {
        if !digit_check(t.get_char(i)) {
            proof {
                assert(int_part(u)[i - from] == t@[i as int]);
            }
            return None;
        }
        i += 1;
    }
    proof {
        assert forall|j: int| 0 <= j < int_part(u).len() implies is_ascii_digit(
            int_part(u)[j],
        ) by {
            assert(int_part(u)[j] == t@[from + j]);
        }
    }
    // the fraction part must be all digits
    let ghost fp = frac_part(u);
    let frac_from: usize = if dot_abs == t_len {
        t_len
    } else {
        dot_abs + 1
    };
    proof {
        if dot_abs < t_len {
            assert(fp =~= t@.subrange(frac_from as int, t_len as int));
        } else {
            assert(fp =~= t@.subrange(frac_from as int, t_len as int));
        }
    }
    let mut k: usize = frac_from;
    #[verifier::loop_isolation(false)]
    while k < t_len
        invariant
            frac_from <= k <= t_len,
            forall|j: int| frac_from <= j < k ==> is_ascii_digit(t@[j]),
        decreases t_len - k,
    {
        if !digit_check(t.get_char(k)) {
            proof {
                assert(fp[k - frac_from] == t@[k as int]);
            }
            return None;
        }
        k += 1;
    }
    proof {
        assert forall|j: int| 0 <= j < fp.len() implies is_ascii_digit(fp[j]) by {
            assert(fp[j] == t@[frac_from + j]);
        }
    }
    // at least one digit
    if from == dot_abs && frac_from == t_len {
        proof {
            assert(idx_of_char(u, '.') == 0);
            assert(u.len() <= 1);
        }
        return None;
    }
    let ip = match parse_digit_run(t, from, dot_abs) {
        Some(v) => v,
        None => {
            return None;
        },
    };
    let mut f: i64 = 0;
    if frac_from < t_len {
        let d0 = digit_value(t.get_char(frac_from));
        proof {
            assert(fp[0] == t@[frac_from as int]);
        }
        f = d0 as i64 * 10;
        if frac_from + 1 < t_len {
            let d1 = digit_value(t.get_char(frac_from + 1));
            proof {
                assert(fp[1] == t@[frac_from + 1]);
            }
            f = f + d1 as i64;
        }
    }
    proof {
        assert(f == frac_centi(fp));
        lemma_dec_val_nonneg(int_part(u));
    }
    let mag: i64 = ip * 100 + f;
    if neg {
        Some(-mag)
    } else {
        Some(mag)
    }
}

/// The decimal digit character for `d`.
pub open spec fn digit_char(d: int) -> char {
    if d == 0 {
        '0'
    } else if d == 1 {
        '1'
    } else if d == 2 {
        '2'
    } else if d == 3 {
        '3'
    } else if d == 4 {
        '4'
    } else if d == 5 {
        '5'
    } else if d == 6 {
        '6'
    } else if d == 7 {
        '7'
    } else if d == 8 {
        '8'
    } else {
        '9'
    }
}

/// The decimal text of `n >= 0`, most significant digit first.
pub open spec fn dec_str(n: int) -> Seq<char>
    decreases n,
{
    if n < 10 {
        seq![digit_char(n)]
    } else {
        dec_str(n / 10) + seq![digit_char(n % 10)]
    }
}

proof fn lemma_digit_char_lit(d: int)
    requires
        0 <= d <= 9,
    ensures
        "0123456789"@.len() == 10,
        "0123456789"@[d] == digit_char(d),
{
    reveal_strlit("0123456789");
}

/// One decimal digit as a fresh string.
fn digit_string(d: u64) -> (r: String)
    requires
        d <= 9,
    ensures
        r@ == seq![digit_char(d as int)],
{
    let lit = "0123456789";
    proof {
        lemma_digit_char_lit(d as int);
    }
    let piece = lit.substring_char(d as usize, d as usize + 1);
    proof {
        assert(piece@ =~= seq![digit_char(d as int)]);
    }
    String::from_str(piece)
}

/// The decimal text of `n`.
pub fn u64_to_dec(n: u64) -> (r: String)
    ensures
        r@ == dec_str(n as int),
    decreases n,
{
    if n < 10 {
        digit_string(n)
    } else {
        let mut s = u64_to_dec(n / 10);
        let tail = digit_string(n % 10);
        s.append(tail.as_str());
        s
    }
}

/// A score in hundredths, printed with exactly two decimals: `92` prints as
/// `0.92`, `110` as `1.10`.
pub open spec fn centi_str(c: int) -> Seq<char> {
    let mag = if c < 0 {
        -c
    } else {
        c
    };
    let sign: Seq<char> = if c < 0 {
        seq!['-']
    } else {
        Seq::empty()
    };
    sign + dec_str(mag / 100) + seq!['.'] + seq![digit_char((mag / 10) % 10)] + seq![
        digit_char(mag % 10),
    ]
}

/// Print a score in hundredths with exactly two decimals.
pub fn format_centi(c: i64) -> (r: String)
    requires
        c > i64::MIN,
    ensures
        r@ == centi_str(c as int),
{
    let mag: i64 = if c < 0 {
        -c
    } else {
        c
    };
    let mut out: String = if c < 0 {
        String::from_str("-")
    } else {
        String::new()
    };
    proof {
        reveal_strlit("-");
        assert(c < 0 ==> out@ =~= seq!['-']);
    }
    let ip = u64_to_dec((mag / 100) as u64);
    out.append(ip.as_str());
    out.append(".");
    proof {
        reveal_strlit(".");
    }
    let d0 = digit_string(((mag / 10) % 10) as u64);
    out.append(d0.as_str());
    let d1 = digit_string((mag % 10) as u64);
    out.append(d1.as_str());
    proof {
        assert(out@ =~= centi_str(c as int));
    }
    out
}

} // verus!
