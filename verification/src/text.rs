//! Verified text primitives the engine is built on: ASCII case-insensitive
//! comparison (header names), substring containment (status matching), the
//! final `/`-delimited segment of a path (operation ids) and non-negative
//! decimal parsing (retry cadences).

use vstd::prelude::*;

verus! {

/// An ASCII capital letter mapped to its small form; everything else kept.
pub open spec fn lower_char(c: char) -> char {
    if 65 <= c as u32 && c as u32 <= 90 {
        ((c as u32) + 32) as char
    } else {
        c
    }
}

/// A sequence of characters with each ASCII capital mapped to its small form.
pub open spec fn lower_seq(s: Seq<char>) -> Seq<char> {
    s.map_values(|c: char| lower_char(c))
}

/// Two names are the same header name when they agree up to ASCII case.
pub open spec fn name_matches(a: Seq<char>, b: Seq<char>) -> bool {
    lower_seq(a) == lower_seq(b)
}

/// `sub` occurs contiguously somewhere in `s`.
pub open spec fn contains_seq(s: Seq<char>, sub: Seq<char>) -> bool {
    exists|i: int| 0 <= i && i + sub.len() <= s.len() && #[trigger] s.subrange(i, i + sub.len())
        == sub
}

/// What stands after the last `/` of `p`; all of `p` when it has no `/`.
pub open spec fn final_segment(p: Seq<char>) -> Seq<char>
    decreases p.len(),
{
    if p.len() == 0 {
        Seq::empty()
    } else if p.last() == '/' {
        Seq::empty()
    } else {
        final_segment(p.drop_last()).push(p.last())
    }
}

/// A decimal digit.
pub open spec fn is_dec_digit(c: char) -> bool {
    48 <= c as u32 && c as u32 <= 57
}

/// The numeric value of a decimal digit.
pub open spec fn digit_val(c: char) -> int {
    c as u32 - 48
}

/// Every character of `s` is a decimal digit.
pub open spec fn all_digits(s: Seq<char>) -> bool {
    forall|i: int| 0 <= i < s.len() ==> is_dec_digit(#[trigger] s[i])
}

/// The number that the digit string `s` denotes.
pub open spec fn dec_value(s: Seq<char>) -> int
    decreases s.len(),
{
    if s.len() == 0 {
        0
    } else {
        dec_value(s.drop_last()) * 10 + digit_val(s.last())
    }
}

fn char_eq_ignore_case(a: char, b: char) -> (r: bool)
    ensures
        r == (lower_char(a) == lower_char(b)),
{
    let ua = a as u32;
    let ub = b as u32;
    let la: u32 = if 65 <= ua && ua <= 90 {
        ua + 32
    } else {
        ua
    };
    let lb: u32 = if 65 <= ub && ub <= 90 {
        ub + 32
    } else {
        ub
    };
    proof {
        assert(lower_char(a) as u32 == la);
        assert(lower_char(b) as u32 == lb);
    }
    la == lb
}

/// Whether `a` and `b` agree up to ASCII case, as header names do.
pub fn eq_ignore_ascii_case(a: &str, b: &str) -> (r: bool)
    ensures
        r == name_matches(a@, b@),
{
    let n = a.unicode_len();
    if n != b.unicode_len() {
        proof {
            assert(lower_seq(a@).len() != lower_seq(b@).len());
        }
        return false;
    }
    let mut i: usize = 0;
    while i < n
        invariant
            n == a@.len(),
            n == b@.len(),
            i <= n,
            forall|j: int| 0 <= j < i ==> lower_char(a@[j]) == lower_char(b@[j]),
        decreases n - i,
    {
        if !char_eq_ignore_case(a.get_char(i), b.get_char(i)) {
            proof {
                assert(lower_seq(a@)[i as int] != lower_seq(b@)[i as int]);
            }
            return false;
        }
        i = i + 1;
    }
    proof {
        assert(lower_seq(a@) =~= lower_seq(b@));
    }
    true
}

/// Whether `sub` occurs contiguously in `s`; the policy behind every status
/// comparison of the engine.
pub fn contains_str(s: &str, sub: &str) -> (r: bool)
    ensures
        r == contains_seq(s@, sub@),
{
    let n = s.unicode_len();
    let m = sub.unicode_len();
    if m > n {
        return false;
    }
    if m == 0 {
        proof {
            assert(s@.subrange(0, 0 + sub@.len() as int) =~= sub@);
        }
        return true;
    }
    let mut i: usize = 0;
    while i <= n - m
        invariant
            n == s@.len(),
            m == sub@.len(),
            1 <= m <= n,
            i <= n - m + 1,
            forall|k: int| 0 <= k < i ==> #[trigger] s@.subrange(k, k + m) != sub@,
        decreases n - m - i + 1,
    {
        let mut j: usize = 0;
        let mut matching = true;
        while matching && j < m
            invariant
                n == s@.len(),
                m == sub@.len(),
                m <= n,
                i <= n - m,
                j <= m,
                matching ==> forall|l: int| 0 <= l < j ==> s@[i + l] == sub@[l],
                !matching ==> s@.subrange(i as int, i + m) != sub@,
            decreases m - j + (if matching { 1int } else { 0int }),
        {
            if s.get_char(i + j) != sub.get_char(j) {
                proof {
                    assert(s@.subrange(i as int, i + m)[j as int] != sub@[j as int]);
                }
                matching = false;
            } else {
                j = j + 1;
            }
        }
        if matching {
            proof {
                assert(s@.subrange(i as int, i + m) =~= sub@);
            }
            return true;
        }
        i = i + 1;
    }
    proof {
        assert(forall|k: int| 0 <= k && k + m <= n ==> #[trigger] s@.subrange(k, k + m) != sub@);
    }
    false
}

proof fn lemma_final_segment_suffix(p: Seq<char>, k: int)
    requires
        0 <= k <= p.len(),
        forall|j: int| k <= j < p.len() ==> p[j] != '/',
        k > 0 ==> p[k - 1] == '/',
    ensures
        final_segment(p) == p.subrange(k, p.len() as int),
    decreases p.len(),
{
    if k == p.len() {
        assert(final_segment(p) =~= p.subrange(k, p.len() as int));
    } else {
        assert(p.last() != '/');
        lemma_final_segment_suffix(p.drop_last(), k);
        assert(p.drop_last().subrange(k, p.len() - 1) =~= p.subrange(k, p.len() - 1));
        assert(p.subrange(k, p.len() - 1).push(p.last()) =~= p.subrange(k, p.len() as int));
    }
}

/// What stands after the last `/` of `path`, as a fresh string; all of
/// `path` when it has no `/`.
pub fn last_path_segment(path: &str) -> (r: String)
    ensures
        r@ == final_segment(path@),
{
    let n = path.unicode_len();
    let mut k: usize = n;
    let mut found = false;
    while !found && k > 0
        invariant
            n == path@.len(),
            k <= n,
            forall|j: int| k <= j < n ==> path@[j] != '/',
            found ==> k > 0 && path@[k - 1] == '/',
        decreases k + (if found { 0int } else { 1int }),
    {
        if path.get_char(k - 1) == '/' {
            found = true;
        } else {
            k = k - 1;
        }
    }
    proof {
        lemma_final_segment_suffix(path@, k as int);
    }
    let seg = path.substring_char(k, n);
    String::from_str(seg)
}

proof fn lemma_dec_value_grows(s: Seq<char>, i: int)
    requires
        0 <= i <= s.len(),
        all_digits(s),
    ensures
        dec_value(s) >= dec_value(s.take(i)),
    decreases s.len() - i,
{
    if i < s.len() {
        lemma_dec_value_grows(s, i + 1);
        assert(s.take(i + 1).drop_last() =~= s.take(i));
        assert(s.take(i + 1).last() == s[i]);
        assert(dec_value(s.take(i + 1)) == dec_value(s.take(i)) * 10 + digit_val(s[i]));
        assert(dec_value(s.take(i)) >= 0) by {
            lemma_dec_value_non_negative(s.take(i));
        }
        assert(dec_value(s.take(i)) * 10 >= dec_value(s.take(i))) by (nonlinear_arith)
            requires
                dec_value(s.take(i)) >= 0,
        ;
    } else {
        assert(s.take(i) =~= s);
    }
}

proof fn lemma_dec_value_non_negative(s: Seq<char>)
    requires
        all_digits(s),
    ensures
        dec_value(s) >= 0,
    decreases s.len(),
{
    if s.len() > 0 {
        assert(all_digits(s.drop_last()));
        lemma_dec_value_non_negative(s.drop_last());
    }
}

/// Reads a non-negative decimal number.  `None` exactly when `s` is empty,
/// holds a character that is no digit, or denotes a number above `u64::MAX`.
pub fn parse_u64(s: &str) -> (r: Option<u64>)
    ensures
        r is Some <==> s@.len() > 0 && all_digits(s@) && dec_value(s@) <= u64::MAX,
        r matches Some(v) ==> v == dec_value(s@),
{
    let n = s.unicode_len();
    if n == 0 {
        return None;
    }
    let mut acc: u64 = 0;
    let mut i: usize = 0;
    while i < n
        invariant
            n == s@.len(),
            i <= n,
            all_digits(s@.take(i as int)),
            acc == dec_value(s@.take(i as int)),
        decreases n - i,
    {
        let c = s.get_char(i);
        let u = c as u32;
        if !(48 <= u && u <= 57) {
            proof {
                assert(!is_dec_digit(s@[i as int]));
            }
            return None;
        }
        let d: u64 = (u - 48) as u64;
        proof {
            assert(s@.take(i + 1).drop_last() =~= s@.take(i as int));
            assert(s@.take(i + 1).last() == s@[i as int]);
        }
        if acc > (u64::MAX - d) / 10 {
            proof {
                assert(acc * 10 + d > u64::MAX) by (nonlinear_arith)
                    requires
                        acc > (u64::MAX - d) / 10,
                        0 <= d <= 9,
                ;
                if all_digits(s@) {
                    lemma_dec_value_grows(s@, i + 1);
                }
            }
            return None;
        }
        proof {
            assert(acc * 10 + d <= u64::MAX) by (nonlinear_arith)
                requires
                    acc <= (u64::MAX - d) / 10,
                    0 <= d <= 9,
            ;
        }
        acc = acc * 10 + d;
        i = i + 1;
    }
    proof {
        assert(s@.take(n as int) =~= s@);
    }
    Some(acc)
}

} // verus!
