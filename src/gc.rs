use vstd::prelude::*;
use crate::naming::{binary_name, binary_name_to_parts};

verus! {

/// The parsed name of each entry of the binaries directory, in listing order:
/// `Some((pid, version))` for a well-named versioned executable, else `None`.
pub fn gc_candidates(names: &Vec<String>) -> (r: Vec<Option<(u128, i64)>>)
    ensures
        r@.len() == names@.len(),
        forall|i: int|
            0 <= i < names@.len() ==> (#[trigger] r@[i] matches Some((pid, version))
                ==> names@[i]@ == binary_name(pid, version)),
        forall|i: int, pid: u128, version: i64|
            #![trigger names@[i], binary_name(pid, version)]
            0 <= i < names@.len() && names@[i]@ == binary_name(pid, version) ==> r@[i] == Some(
                (pid, version),
            ),
{
    let mut r: Vec<Option<(u128, i64)>> = Vec::new();
    let mut i: usize = 0;
    while i < names.len()
        invariant
            i <= names@.len(),
            r@.len() == i,
            forall|k: int|
                0 <= k < i ==> (#[trigger] r@[k] matches Some((pid, version)) ==> names@[k]@
                    == binary_name(pid, version)),
            forall|k: int, pid: u128, version: i64|
                #![trigger names@[k], binary_name(pid, version)]
                0 <= k < i && names@[k]@ == binary_name(pid, version) ==> r@[k] == Some(
                    (pid, version),
                ),
        decreases names@.len() - i,
    {
        let parsed = binary_name_to_parts(names[i].as_str());
        r.push(parsed);
        i = i + 1;
    }
    r
}

/// Whether the sweep deletes one entry, given its parsed name and the
/// catalog's answer to "is this version in use" (`None` when the lookup
/// failed or was not made). Only a well-named file that the catalog reports
/// unused is deleted.
pub fn gc_should_delete(parsed: Option<(u128, i64)>, in_use: Option<bool>) -> (r: bool)
    ensures
        r == (parsed is Some && in_use == Some(false)),
{
    match (parsed, in_use) {
        (Some(_), Some(false)) => true,
        _ => false,
    }
}

/// The deletions of one sweep: entry `i` is deleted exactly when its name is
/// well formed and the catalog reported its version unused. An entry that the
/// catalog reports in use, or about which it gave no answer, is never deleted;
/// every unused well-named entry is deleted in this same sweep.
pub fn gc_deletions(candidates: &Vec<Option<(u128, i64)>>, in_use: &Vec<Option<bool>>) -> (r: Vec<
    bool,
>)
    requires
        candidates@.len() == in_use@.len(),
    ensures
        r@.len() == candidates@.len(),
        forall|i: int|
            0 <= i < r@.len() ==> #[trigger] r@[i] == (candidates@[i] is Some && in_use@[i] == Some(
                false,
            )),
        forall|i: int| 0 <= i < r@.len() && in_use@[i] == Some(true) ==> !#[trigger] r@[i],
{
    let mut r: Vec<bool> = Vec::new();
    let mut i: usize = 0;
    while i < candidates.len()
        invariant
            i <= candidates@.len(),
            candidates@.len() == in_use@.len(),
            r@.len() == i,
            forall|k: int|
                0 <= k < i ==> #[trigger] r@[k] == (candidates@[k] is Some && in_use@[k] == Some(
                    false,
                )),
        decreases candidates@.len() - i,
    {
        let d = gc_should_delete(candidates[i], in_use[i]);
        r.push(d);
        i = i + 1;
    }
    r
}

} // verus!
