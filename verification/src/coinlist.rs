//! Paging arithmetic for a listing endpoint that returns at most one
//! hundred entries per request.

use vstd::prelude::*;

verus! {

/// How many full-or-partial pages of one hundred cover `n` entries.
pub open spec fn chunk_count(n: int) -> int {
    if n <= 0 {
        0
    } else {
        (n + 99) / 100
    }
}

/// The start offsets of the pages: every multiple of one hundred below `n`.
pub open spec fn starts_model(n: int) -> Seq<int> {
    Seq::new(chunk_count(n) as nat, |i: int| i * 100)
}

/// The size of the last page, with the sign of `n`, matching a truncating
/// remainder by one hundred.
pub open spec fn last_limit(n: int) -> int {
    if n >= 0 {
        n % 100
    } else {
        -((-n) % 100)
    }
}

/// The per-page limits: a full hundred for every page but the last, whose
/// limit is the remainder.  With no pages at all a single remainder entry
/// is still produced.
pub open spec fn limits_model(n: int) -> Seq<int> {
    if chunk_count(n) == 0 {
        seq![last_limit(n)]
    } else {
        Seq::new(
            chunk_count(n) as nat,
            |i: int|
                if i == chunk_count(n) - 1 {
                    last_limit(n)
                } else {
                    100
                },
        )
    }
}

/// Builds the start offsets and per-request limits that page a listing of
/// `n` entries in blocks of one hundred.
pub fn build_starts_and_limits(n: i32) -> (r: (Vec<i32>, Vec<i32>))
    ensures
        r.0@.map(|i: int, x: i32| x as int) == starts_model(n as int),
        r.1@.map(|i: int, x: i32| x as int) == limits_model(n as int),
{
    let mut starts: Vec<i32> = Vec::new();
    let mut limits: Vec<i32> = Vec::new();
    if n <= 0 {
        let m: i64 = -(n as i64);
        let rem: i32 = (-(m % 100)) as i32;
        limits.push(rem);
        proof {
            assert(starts@.map(|i: int, x: i32| x as int) =~= starts_model(n as int));
            assert(limits@.map(|i: int, x: i32| x as int) =~= limits_model(n as int));
        }
        return (starts, limits);
    }
    let count: i32 = (n - 1) / 100 + 1;
    let rem: i32 = n % 100;
    let mut k: i32 = 0;
    while k < count
        invariant
            0 <= k <= count,
            count == chunk_count(n as int),
            1 <= count <= 21474837,
            starts@.len() == k,
            limits@.len() == k,
            forall|i: int| 0 <= i < k ==> starts@[i] as int == i * 100,
            forall|i: int| 0 <= i < k ==> limits@[i] == 100i32,
        decreases count - k,
    {
        starts.push(k * 100);
        limits.push(100);
        k = k + 1;
    }
    let ghost before: Seq<i32> = limits@;
    let _ = limits.pop();
    limits.push(rem);
    proof {
        assert(limits@ =~= before.take(count - 1).push(rem));
        assert(starts@.map(|i: int, x: i32| x as int) =~= starts_model(n as int));
        assert(limits@.map(|i: int, x: i32| x as int) =~= limits_model(n as int));
    }
    (starts, limits)
}

} // verus!
