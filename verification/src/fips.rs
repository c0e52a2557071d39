//! FIPS mode and the selection of FIPS-approved algorithms.
use vstd::prelude::*;

verus! {

/// Whether the FIPS flag reported by the system means FIPS mode: any
/// nonzero value.
pub fn fips_mode_enabled(flag: u8) -> (enabled: bool)
    ensures
        enabled == (flag != 0),
{
    flag != 0
}

/// The positions, in order, of the entries flagged as FIPS-approved: what a
/// FIPS provider keeps of a list of cipher suites or key exchange groups.
pub fn fips_approved_indices(approved: &[bool]) -> (kept: Vec<usize>)
    ensures
        forall|k: int| 0 <= k < kept.len() ==> #[trigger] kept@[k] < approved.len() && approved@[kept@[k] as int],
        forall|k1: int, k2: int| 0 <= k1 < k2 < kept.len() ==> kept@[k1] < kept@[k2],
        forall|i: int| 0 <= i < approved.len() && #[trigger] approved@[i] ==> kept@.contains(i as usize),
{
    let mut kept: Vec<usize> = Vec::new();
    let mut i: usize = 0;
    while i < approved.len()
        invariant
            i <= approved.len(),
            forall|k: int| 0 <= k < kept.len() ==> #[trigger] kept@[k] < i && approved@[kept@[k] as int],
            forall|k1: int, k2: int| 0 <= k1 < k2 < kept.len() ==> kept@[k1] < kept@[k2],
            forall|j: int| 0 <= j < i && #[trigger] approved@[j] ==> kept@.contains(j as usize),
        decreases approved.len() - i,
    {
        if approved[i] {
            let ghost before = kept@;
            kept.push(i);
            assert forall|j: int| 0 <= j < i + 1 && #[trigger] approved@[j] implies kept@.contains(j as usize) by {
                if j < i {
                    let k = choose|k: int| 0 <= k < before.len() && before[k] == j as usize;
                    assert(kept@[k] == j as usize);
                } else {
                    assert(kept@[kept.len() - 1] == j as usize);
                }
            }
        }
        i = i + 1;
    }
    kept
}

} // verus!
