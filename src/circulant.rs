use vstd::prelude::*;

verus! {

/// The lag index whose kernel value fills slot `i` of a circulant vector of
/// length `m`: slots past the middle mirror those before it.
pub open spec fn mirror_lag(m: nat, i: nat) -> nat {
    if i <= m / 2 {
        i
    } else {
        (m - i) as nat
    }
}

/// Builds the circulant vector of length `m` for a field of `n` points.
///
/// Slot `i` for `i <= m / 2` holds `kernel(i, n)`, the kernel at the lag
/// `i / n` (normalised by the field length, not by `m`); every later slot `i`
/// repeats slot `m - i`, so that `c[i] == c[m - i]` for all `0 < i < m`.
pub fn circulant_embedding<T: Copy, F: Fn(usize, usize) -> T>(m: usize, n: usize, kernel: F) -> (c:
    Vec<T>)
    requires
        m >= 1,
        forall|i: usize| i <= m / 2 ==> kernel.requires((i, n)),
    ensures
        c.len() == m,
        forall|i: usize| i <= m / 2 ==> kernel.ensures((i, n), #[trigger] c@[i as int]),
        forall|i: int| 0 < i < m ==> #[trigger] c@[i] == c@[m - i],
        forall|i: int| 0 <= i < m ==> #[trigger] c@[i] == c@[mirror_lag(m as nat, i as nat) as int],
{
    let mid: usize = m / 2;
    let mut c: Vec<T> = Vec::new();
    let mut i: usize = 0;
    while i <= mid
        invariant
            mid == m / 2,
            m >= 1,
            i <= mid + 1,
            c.len() == i,
            forall|j: usize| j <= m / 2 ==> kernel.requires((j, n)),
            forall|j: usize| j < i ==> kernel.ensures((j, n), #[trigger] c@[j as int]),
        decreases mid + 1 - i,
    {
        let v = kernel(i, n);
        c.push(v);
        i = i + 1;
    }
    while i < m
        invariant
            mid == m / 2,
            mid + 1 <= i <= m,
            c.len() == i,
            forall|j: usize| j <= mid ==> kernel.ensures((j, n), #[trigger] c@[j as int]),
            forall|j: int| mid < j < i ==> #[trigger] c@[j] == c@[m - j],
        decreases m - i,
    {
        let v = c[m - i];
        c.push(v);
        i = i + 1;
    }
    assert forall|i: int| 0 < i < m implies #[trigger] c@[i] == c@[m - i] by {
        if i <= mid {
            if m - i > mid {
                assert(c@[m - i] == c@[m - (m - i)]);
            }
        }
    }
    c
}

} // verus!
