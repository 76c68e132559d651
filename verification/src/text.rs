//! Byte strings: decimal numbers, separators and surrounding blanks.

use vstd::prelude::*;
use vstd::slice::slice_subrange;
use vstd::slice::slice_to_vec;

verus! {

/// An ASCII digit.
pub open spec fn is_digit(b: u8) -> bool {
    48 <= b <= 57
}

/// The number that the digits of `s` spell in base ten.
pub open spec fn decimal_value(s: Seq<u8>) -> nat
    decreases s.len(),
{
    if s.len() == 0 {
        0
    } else {
        decimal_value(s.drop_last()) * 10 + (s.last() as int - 48) as nat
    }
}

/// `s` is a decimal numeral: digits only, at least one, and no leading zero
/// unless it is the numeral `0`.
pub open spec fn is_decimal(s: Seq<u8>) -> bool {
    &&& s.len() > 0
    &&& forall|i: int| 0 <= i < s.len() ==> is_digit(#[trigger] s[i])
    &&& (s.len() > 1 ==> s[0] != 48)
}

/// The number that `s` denotes, if `s` is a decimal numeral whose value
/// fits in 64 bits.
pub open spec fn number_of(s: Seq<u8>) -> Option<u64> {
    if is_decimal(s) && decimal_value(s) <= u64::MAX {
        Some(decimal_value(s) as u64)
    } else {
        None
    }
}

/// The value of a prefix never exceeds the value of the whole.
pub proof fn lemma_decimal_prefix(s: Seq<u8>, k: int)
    requires
        0 <= k <= s.len(),
    ensures
        decimal_value(s.take(k)) <= decimal_value(s),
    decreases s.len() - k,
{
    if k == s.len() {
        assert(s.take(k) =~= s);
    } else {
        lemma_decimal_prefix(s.drop_last(), k);
        assert(s.drop_last().take(k) =~= s.take(k));
    }
}

/// Reads a decimal numeral.
pub fn parse_number(s: &[u8]) -> (r: Option<u64>)
    ensures
        r == number_of(s@),
{
    let n = s.len();
    if n == 0 {
        return None;
    }
    if n > 1 && s[0] == 48 {
        return None;
    }
    let mut acc: u64 = 0;
    let mut i: usize = 0;
    while i < n
        invariant
            n == s@.len(),
            i <= n,
            forall|j: int| 0 <= j < i ==> is_digit(#[trigger] s@[j]),
            acc as nat == decimal_value(s@.take(i as int)),
        decreases n - i,
    {
        let b = s[i];
        if b < 48 || b > 57 {
            return None;
        }
        let d: u64 = (b - 48) as u64;
        proof {
            assert(s@.take(i + 1).drop_last() =~= s@.take(i as int));
            assert(decimal_value(s@.take(i + 1)) == acc as nat * 10 + d as nat);
        }
        if acc > (u64::MAX - d) / 10 {
            proof {
                lemma_decimal_prefix(s@, i + 1);
            }
            return None;
        }
        acc = acc * 10 + d;
        i += 1;
    }
    proof {
        assert(s@.take(n as int) =~= s@);
    }
    Some(acc)
}

/// `k` is where `b` first occurs in `s`, or the length of `s` if it does not
/// occur.
pub open spec fn first_at(s: Seq<u8>, b: u8, k: int) -> bool {
    &&& 0 <= k <= s.len()
    &&& forall|j: int| 0 <= j < k ==> s[j] != b
    &&& (k < s.len() ==> s[k] == b)
}

/// The index of the first `b` in `s`; the length of `s` if there is none.
pub open spec fn position(s: Seq<u8>, b: u8) -> int {
    choose|k: int| first_at(s, b, k)
}

proof fn lemma_first_exists(s: Seq<u8>, b: u8, i: int)
    requires
        0 <= i <= s.len(),
        forall|j: int| 0 <= j < i ==> s[j] != b,
    ensures
        exists|k: int| first_at(s, b, k),
    decreases s.len() - i,
{
    if i == s.len() || s[i] == b {
        assert(first_at(s, b, i));
    } else {
        lemma_first_exists(s, b, i + 1);
    }
}

/// `position` is the one index that `first_at` describes.
pub proof fn lemma_position(s: Seq<u8>, b: u8)
    ensures
        first_at(s, b, position(s, b)),
        forall|k: int| first_at(s, b, k) ==> k == position(s, b),
{
    lemma_first_exists(s, b, 0);
    let p = position(s, b);
    assert forall|k: int| first_at(s, b, k) implies k == p by {
        if k < p {
            assert(s[k] == b);
        } else if p < k {
            assert(s[p] == b);
        }
    }
}

/// Finds the first `b` in `s`.
pub fn find(s: &[u8], b: u8) -> (r: usize)
    ensures
        r == position(s@, b),
        first_at(s@, b, r as int),
{
    let mut i: usize = 0;
    while i < s.len() && s[i] != b
        invariant
            i <= s.len(),
            forall|j: int| 0 <= j < i ==> s@[j] != b,
        decreases s.len() - i,
    {
        i += 1;
    }
    proof {
        assert(first_at(s@, b, i as int));
        lemma_position(s@, b);
    }
    i
}

/// The fields of `s` between occurrences of `sep`. A string without `sep`
/// is one field; `n` occurrences give `n + 1` fields, some possibly empty.
pub open spec fn fields(s: Seq<u8>, sep: u8) -> Seq<Seq<u8>>
    decreases s.len(),
{
    let k = position(s, sep);
    if 0 <= k < s.len() {
        seq![s.take(k)] + fields(s.skip(k + 1), sep)
    } else {
        seq![s]
    }
}

/// The byte strings that a vector of vectors holds.
pub open spec fn byte_views(v: Seq<Vec<u8>>) -> Seq<Seq<u8>> {
    Seq::new(v.len(), |i: int| v[i]@)
}

/// Cuts `s` at every `sep`.
pub fn split(s: &[u8], sep: u8) -> (r: Vec<Vec<u8>>)
    ensures
        byte_views(r@) == fields(s@, sep),
{
    let n = s.len();
    let mut out: Vec<Vec<u8>> = Vec::new();
    let mut from: usize = 0;
    proof {
        assert(s@.skip(0) =~= s@);
        assert(byte_views(out@) + fields(s@, sep) =~= fields(s@, sep));
    }
    loop
        invariant
            n == s@.len(),
            from <= n,
            fields(s@, sep) == byte_views(out@) + fields(s@.skip(from as int), sep),
        decreases n - from,
    {
        let rest = slice_subrange(s, from, n);
        assert(rest@ =~= s@.skip(from as int));
        let k = find(rest, sep);
        let ghost before = out@;
        if k < rest.len() {
            out.push(slice_to_vec(slice_subrange(rest, 0, k)));
            proof {
                assert(rest@.subrange(0, k as int) =~= rest@.take(k as int));
                assert(rest@.skip(k + 1) =~= s@.skip(from + k + 1));
                assert(byte_views(out@) =~= byte_views(before) + seq![rest@.take(k as int)]);
                assert(fields(s@, sep) =~= byte_views(out@) + fields(
                    s@.skip(from + k + 1),
                    sep,
                ));
            }
            from = from + k + 1;
        } else {
            out.push(slice_to_vec(rest));
            proof {
                assert(byte_views(out@) =~= byte_views(before) + seq![rest@]);
                assert(fields(s@, sep) =~= byte_views(out@));
            }
            return out;
        }
    }
}

/// A space, a tab, a line feed or a carriage return.
pub open spec fn is_blank(b: u8) -> bool {
    b == 32 || b == 9 || b == 10 || b == 13
}

/// `s` without its leading blanks.
pub open spec fn trim_start(s: Seq<u8>) -> Seq<u8>
    decreases s.len(),
{
    if s.len() > 0 && is_blank(s[0]) {
        trim_start(s.drop_first())
    } else {
        s
    }
}

/// `s` without its trailing blanks.
pub open spec fn trim_end(s: Seq<u8>) -> Seq<u8>
    decreases s.len(),
{
    if s.len() > 0 && is_blank(s.last()) {
        trim_end(s.drop_last())
    } else {
        s
    }
}

/// `s` without the blanks around it.
pub open spec fn trimmed(s: Seq<u8>) -> Seq<u8> {
    trim_end(trim_start(s))
}

fn blank(b: u8) -> (r: bool)
    ensures
        r == is_blank(b),
{
    b == 32 || b == 9 || b == 10 || b == 13
}

/// Strips the blanks around `s`.
pub fn trim(s: &[u8]) -> (r: &[u8])
    ensures
        r@ == trimmed(s@),
{
    let n = s.len();
    let mut a: usize = 0;
    proof {
        assert(s@.skip(0) =~= s@);
    }
    while a < n && blank(s[a])
        invariant
            n == s@.len(),
            a <= n,
            trim_start(s@) == trim_start(s@.skip(a as int)),
        decreases n - a,
    {
        proof {
            assert(s@.skip(a as int).drop_first() =~= s@.skip(a + 1));
        }
        a += 1;
    }
    assert(trim_start(s@) == s@.skip(a as int));
    let mut b: usize = n;
    proof {
        assert(s@.subrange(a as int, n as int) =~= s@.skip(a as int));
    }
    while b > a && blank(s[b - 1])
        invariant
            n == s@.len(),
            a <= b <= n,
            trimmed(s@) == trim_end(s@.subrange(a as int, b as int)),
        decreases b,
    {
        proof {
            assert(s@.subrange(a as int, b as int).drop_last() =~= s@.subrange(
                a as int,
                b - 1,
            ));
        }
        b -= 1;
    }
    slice_subrange(s, a, b)
}

/// Whether two byte strings hold the same bytes.
pub fn bytes_equal(a: &[u8], b: &[u8]) -> (r: bool)
    ensures
        r == (a@ == b@),
{
    if a.len() != b.len() {
        return false;
    }
    let mut i: usize = 0;
    while i < a.len()
        invariant
            a@.len() == b@.len(),
            i <= a.len(),
            forall|j: int| 0 <= j < i ==> a@[j] == b@[j],
        decreases a.len() - i,
    {
        if a[i] != b[i] {
            return false;
        }
        i += 1;
    }
    assert(a@ =~= b@);
    true
}

} // verus!
