use vstd::prelude::*;
use vstd::string::*;

verus! {

/// Whether `x` occurs in `v`.
pub fn vec_contains(v: &Vec<u16>, x: u16) -> (r: bool)
    ensures
        r == v@.contains(x),
{
    let mut i: usize = 0;
    while i < v.len()
        invariant
            0 <= i <= v.len(),
            forall|j: int| 0 <= j < i ==> v@[j] != x,
        decreases v.len() - i,
    {
        if v[i] == x {
            assert(v@[i as int] == x);
            return true;
        }
        i = i + 1;
    }
    false
}

/// Whether `x` occurs in `v`.
pub fn vec_contains_u8(v: &Vec<u8>, x: u8) -> (r: bool)
    ensures
        r == v@.contains(x),
{
    let mut i: usize = 0;
    while i < v.len()
        invariant
            0 <= i <= v.len(),
            forall|j: int| 0 <= j < i ==> v@[j] != x,
        decreases v.len() - i,
    {
        if v[i] == x {
            assert(v@[i as int] == x);
            return true;
        }
        i = i + 1;
    }
    false
}

} // verus!

verus! {

/// Whether two strings hold the same characters.
pub fn str_equal(a: &str, b: &str) -> (r: bool)
    ensures
        r == (a@ == b@),
{
    let n = a.unicode_len();
    let m = b.unicode_len();
    if n != m {
        return false;
    }
    let mut i: usize = 0;
    while i < n
        invariant
            n == a@.len(),
            m == b@.len(),
            n == m,
            0 <= i <= n,
            forall|j: int| 0 <= j < i ==> a@[j] == b@[j],
        decreases n - i,
    {
        if a.get_char(i) != b.get_char(i) {
            return false;
        }
        i = i + 1;
    }
    assert(a@ =~= b@);
    true
}

} // verus!

verus! {

/// The number of set bits of `x`.
pub open spec fn popcount(x: u32) -> nat
    decreases x,
{
    if x == 0 { 0 } else { (x % 2) as nat + popcount(x / 2) }
}

proof fn lemma_popcount_le(x: u32)
    ensures
        popcount(x) <= x,
    decreases x,
{
    if x != 0 {
        lemma_popcount_le(x / 2);
    }
}

/// The number of set bits of `x`.
pub fn count_ones(x: u32) -> (r: u32)
    ensures
        r == popcount(x),
{
    let mut y: u32 = x;
    let mut n: u32 = 0;
    proof { lemma_popcount_le(x); }
    while y != 0
        invariant
            n + popcount(y) == popcount(x),
            popcount(x) <= x,
        decreases y,
    {
        proof { lemma_popcount_le(y / 2); }
        n = n + y % 2;
        y = y / 2;
    }
    n
}

} // verus!
