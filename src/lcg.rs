//! The linear congruential generator shared by the projection matrix and the
//! connection-drive walk.
use vstd::prelude::*;

verus! {

/// One LCG step: `s * 1103515245 + 12345` modulo 2^64.
pub open spec fn lcg_next(s: u64) -> u64 {
    ((s as int * 1103515245 + 12345) % 0x1_0000_0000_0000_0000) as u64
}

/// The state after `k` steps from `seed`.
pub open spec fn lcg_state(seed: u64, k: nat) -> u64
    decreases k,
{
    if k == 0 {
        seed
    } else {
        lcg_next(lcg_state(seed, (k - 1) as nat))
    }
}

/// Performs one LCG step.
pub fn lcg_step(s: u64) -> (r: u64)
    ensures
        r == lcg_next(s),
{
    let r = s.wrapping_mul(1103515245).wrapping_add(12345);
    assert(r == lcg_next(s)) by {
        let m = 0x1_0000_0000_0000_0000int;
        let p = (s as int * 1103515245) % m;
        vstd::arithmetic::div_mod::lemma_add_mod_noop(s as int * 1103515245, 12345, m);
        vstd::arithmetic::div_mod::lemma_mod_twice(p + 12345, m);
    }
    r
}

/// The first `n` outputs of the generator started at `seed`: output `k` is
/// the state after `k + 1` steps.
pub fn lcg_outputs(seed: u64, n: usize) -> (r: Vec<u64>)
    ensures
        r@.len() == n,
        forall|k: int| 0 <= k < n ==> #[trigger] r@[k] == lcg_state(seed, (k + 1) as nat),
{
    let mut r: Vec<u64> = Vec::new();
    let mut s = seed;
    let mut k: usize = 0;
    while k < n
        invariant
            k <= n,
            r@.len() == k,
            s == lcg_state(seed, k as nat),
            forall|i: int| 0 <= i < k ==> #[trigger] r@[i] == lcg_state(seed, (i + 1) as nat),
        decreases n - k,
    {
        s = lcg_step(s);
        r.push(s);
        k = k + 1;
    }
    r
}

/// Two runs from one seed give the same outputs.
pub proof fn lemma_outputs_reproducible(seed: u64, n: usize, a: Seq<u64>, b: Seq<u64>)
    requires
        a.len() == n,
        b.len() == n,
        forall|k: int| 0 <= k < n ==> #[trigger] a[k] == lcg_state(seed, (k + 1) as nat),
        forall|k: int| 0 <= k < n ==> #[trigger] b[k] == lcg_state(seed, (k + 1) as nat),
    ensures
        a == b,
{
    assert(a =~= b);
}

} // verus!
