//! NUL-terminated byte strings: length and lexicographic comparison.
use vstd::prelude::*;

verus! {

/// `s` holds a zero byte somewhere.
pub open spec fn has_terminator(s: Seq<u8>) -> bool {
    exists|k: int| 0 <= k < s.len() && s[k] == 0
}

/// `n` is the index of the first zero byte of `s`.
pub open spec fn terminated_at(s: Seq<u8>, n: int) -> bool {
    &&& 0 <= n < s.len()
    &&& s[n] == 0
    &&& forall|i: int| 0 <= i < n ==> s[i] != 0
}

/// Comparison of the strings in `l` and `r`, walked in lock-step from index `i`: the
/// difference of the first pair of bytes that differ, or zero once both end together.
pub open spec fn compare_from(l: Seq<u8>, r: Seq<u8>, i: int) -> int
    decreases l.len() - i,
{
    if i < 0 || i >= l.len() || i >= r.len() {
        0
    } else if l[i] != r[i] {
        l[i] as int - r[i] as int
    } else if l[i] == 0 {
        0
    } else {
        compare_from(l, r, i + 1)
    }
}

/// Lexicographic comparison of the NUL-terminated strings at the start of `l` and `r`.
pub open spec fn c_compare(l: Seq<u8>, r: Seq<u8>) -> int {
    compare_from(l, r, 0)
}

/// `k` is the first index at which `l` and `r` differ, and neither string has ended
/// before it.
pub open spec fn first_mismatch(l: Seq<u8>, r: Seq<u8>, k: int) -> bool {
    &&& 0 <= k < l.len()
    &&& k < r.len()
    &&& l[k] != r[k]
    &&& forall|j: int| 0 <= j < k ==> l[j] == r[j] && l[j] != 0
}

/// `l` and `r` hold the same bytes up to and including their terminators.
pub open spec fn same_c_string(l: Seq<u8>, r: Seq<u8>) -> bool {
    exists|n: int| terminated_at(l, n) && terminated_at(r, n) && l.take(n) =~= r.take(n)
}

/// Walks from `i` over the common non-zero prefix of `l` and `r` to the first index
/// where they differ or `l` ends; the comparison from `i` is the comparison there.
proof fn lemma_walk_to_stop(l: Seq<u8>, r: Seq<u8>, i: int, kl: int, kr: int) -> (k: int)
    requires
        0 <= i <= kl < l.len(),
        l[kl] == 0,
        0 <= kr < r.len(),
        r[kr] == 0,
        forall|j: int| 0 <= j < i ==> l[j] == r[j] && l[j] != 0,
    ensures
        i <= k <= kl,
        k < r.len(),
        l[k] != r[k] || l[k] == 0,
        forall|j: int| 0 <= j < k ==> l[j] == r[j] && l[j] != 0,
        compare_from(l, r, i) == compare_from(l, r, k),
    decreases kl - i,
{
    if i > kr {
        assert(l[kr] == r[kr] && l[kr] != 0);
    }
    if l[i] != r[i] || l[i] == 0 {
        i
    } else {
        lemma_walk_to_stop(l, r, i + 1, kl, kr)
    }
}

/// Two terminated strings compare equal exactly when they hold the same bytes up to
/// and including their terminators. Otherwise the comparison is the difference of the
/// first pair of bytes that differ, and so has that difference's sign.
pub proof fn lemma_compare_zero_iff_same(l: Seq<u8>, r: Seq<u8>)
    requires
        has_terminator(l),
        has_terminator(r),
    ensures
        c_compare(l, r) == 0 <==> same_c_string(l, r),
        c_compare(l, r) != 0 ==> exists|k: int|
            first_mismatch(l, r, k) && c_compare(l, r) == l[k] as int - r[k] as int,
{
    let kl = choose|k: int| 0 <= k < l.len() && l[k] == 0;
    let kr = choose|k: int| 0 <= k < r.len() && r[k] == 0;
    let k = lemma_walk_to_stop(l, r, 0, kl, kr);
    if l[k] != r[k] {
        assert(first_mismatch(l, r, k));
        assert(c_compare(l, r) == l[k] as int - r[k] as int);
        if same_c_string(l, r) {
            let n = choose|n: int|
                terminated_at(l, n) && terminated_at(r, n) && l.take(n) =~= r.take(n);
            if n > k {
                assert(l.take(n)[k] == r.take(n)[k]);
            }
        }
    } else {
        assert(terminated_at(l, k));
        assert(terminated_at(r, k));
        assert(l.take(k) =~= r.take(k));
    }
}

/// Every terminated string compares equal to itself.
pub proof fn lemma_compare_reflexive(s: Seq<u8>)
    requires
        has_terminator(s),
    ensures
        c_compare(s, s) == 0,
{
    let k = choose|k: int| 0 <= k < s.len() && s[k] == 0;
    lemma_walk_to_stop(s, s, 0, k, k);
}

/// Counts the bytes of `s` before its first zero byte.
pub fn strlen(s: &[u8]) -> (r: usize)
    requires
        has_terminator(s@),
    ensures
        terminated_at(s@, r as int),
{
    let ghost k = choose|k: int| 0 <= k < s@.len() && s@[k] == 0;
    let mut len: usize = 0;
    while s[len] != 0
        invariant
            len <= k < s@.len(),
            s@[k] == 0,
            s@.len() == s.len(),
            forall|i: int| 0 <= i < len ==> s@[i] != 0,
        decreases k - len,
    {
        len = len + 1;
    }
    len
}

/// Compares the NUL-terminated strings `lhs` and `rhs`: the difference, left minus
/// right, of the first pair of bytes that differ, or zero when the strings are equal.
pub fn strcmp(lhs: &[u8], rhs: &[u8]) -> (r: i32)
    requires
        has_terminator(lhs@),
        has_terminator(rhs@),
    ensures
        r as int == c_compare(lhs@, rhs@),
{
    let ghost kl = choose|k: int| 0 <= k < lhs@.len() && lhs@[k] == 0;
    let ghost kr = choose|k: int| 0 <= k < rhs@.len() && rhs@[k] == 0;
    let mut idx: usize = 0;
    loop
        invariant
            idx <= kl < lhs@.len(),
            idx <= kr < rhs@.len(),
            lhs@[kl] == 0,
            rhs@[kr] == 0,
            lhs@.len() == lhs.len(),
            rhs@.len() == rhs.len(),
            forall|j: int| 0 <= j < idx ==> lhs@[j] == rhs@[j] && lhs@[j] != 0,
            c_compare(lhs@, rhs@) == compare_from(lhs@, rhs@, idx as int),
        decreases kl - idx,
    {
        let l = lhs[idx];
        let r = rhs[idx];
        if l != r {
            return (l as i32) - (r as i32);
        }
        if l == 0 {
            return 0;
        }
        assert(compare_from(lhs@, rhs@, idx as int) == compare_from(lhs@, rhs@, idx + 1));
        idx = idx + 1;
    }
}

/// Returns `0`: the length of the empty string plus its comparison with itself.
pub fn kfs_string_helpers_marker() -> (r: i32)
    ensures
        r == 0,
{
    let empty: [u8; 1] = [0u8];
    assert(empty@[0] == 0);
    let len = strlen(&empty);
    let cmp = strcmp(&empty, &empty);
    assert(compare_from(empty@, empty@, 0) == 0);
    (len as i32) + cmp
}

} // verus!
