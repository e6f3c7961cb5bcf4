use vstd::prelude::*;
use crate::naming::{binary_name, binary_name_to_parts};
use crate::status::{compiling, ProgramStatus};

verus! {

/// A program as listed by the catalog.
#[derive(Debug, Clone)]
pub struct ProgramRecord {
    pub tenant_id: u128,
    pub program_id: u128,
    pub version: i64,
    pub status: ProgramStatus,
}

/// What startup reconciliation does to one program.
#[derive(Debug, Clone, Copy, PartialEq, Eq)]
pub enum ReconcileAction {
    /// Leave the program and its artifact alone.
    Keep,
    /// Delete the versioned executable, then set the status to `Pending`
    /// with a guarded write.
    RemoveBinaryAndRequeue,
    /// Queue the program for compilation again.
    Requeue,
}

pub open spec fn reconcile_action_of(status: ProgramStatus, has_binary: bool) -> ReconcileAction {
    if status is CompilingRust && has_binary {
        ReconcileAction::RemoveBinaryAndRequeue
    } else if (compiling(status) || status is Success) && !has_binary {
        ReconcileAction::Requeue
    } else {
        ReconcileAction::Keep
    }
}

pub open spec fn key_of(p: ProgramRecord) -> (u128, i64) {
    (p.program_id, p.version)
}

/// Decides the reconciliation of one program from its status and whether its
/// versioned executable was found on disk.
pub fn reconcile_action(status: &ProgramStatus, has_binary: bool) -> (r: ReconcileAction)
    ensures
        r == reconcile_action_of(*status, has_binary),
{
    if status.is_compiling_rust() && has_binary {
        ReconcileAction::RemoveBinaryAndRequeue
    } else if (status.is_compiling() || status.is_success()) && !has_binary {
        ReconcileAction::Requeue
    } else {
        ReconcileAction::Keep
    }
}

/// Whether `(pid, version)` is among the artifacts found.
pub fn binaries_contain(found: &Vec<(u128, i64)>, pid: u128, version: i64) -> (r: bool)
    ensures
        r == found@.contains((pid, version)),
{
    let mut i: usize = 0;
    while i < found.len()
        invariant
            i <= found@.len(),
            forall|k: int| 0 <= k < i ==> found@[k] != (pid, version),
        decreases found@.len() - i,
    {
        let (p, v) = found[i];
        if p == pid && v == version {
            assert(found@[i as int] == (pid, version));
            return true;
        }
        i = i + 1;
    }
    false
}

/// The `(pid, version)` pairs of the well-named entries of the binaries
/// directory, in listing order; other names are skipped.
pub fn collect_binaries(names: &Vec<String>) -> (r: Vec<(u128, i64)>)
    ensures
        forall|pid: u128, version: i64|
            r@.contains((pid, version)) <==> exists|i: int|
                0 <= i < names@.len() && #[trigger] names@[i]@ == binary_name(pid, version),
{
    let mut r: Vec<(u128, i64)> = Vec::new();
    let mut i: usize = 0;
    while i < names.len()
        invariant
            i <= names@.len(),
            forall|pid: u128, version: i64|
                r@.contains((pid, version)) <==> exists|k: int|
                    0 <= k < i && #[trigger] names@[k]@ == binary_name(pid, version),
        decreases names@.len() - i,
    {
        let parsed = binary_name_to_parts(names[i].as_str());
        let ghost old_r = r@;
        match parsed {
            Some(pv) => {
                r.push(pv);
            },
            None => {},
        }
        proof {
            assert forall|pid: u128, version: i64|
                r@.contains((pid, version)) <==> exists|k: int|
                    0 <= k < i + 1 && #[trigger] names@[k]@ == binary_name(pid, version) by {
                if r@.contains((pid, version)) {
                    if old_r.contains((pid, version)) {
                        let k = choose|k: int|
                            0 <= k < i && #[trigger] names@[k]@ == binary_name(pid, version);
                        assert(0 <= k < i + 1);
                    } else {
                        let j = choose|j: int| 0 <= j < r@.len() && r@[j] == (pid, version);
                        if j < old_r.len() {
                            assert(old_r[j] == (pid, version));
                        }
                        assert(names@[i as int]@ == binary_name(pid, version));
                    }
                }
                if exists|k: int|
                    0 <= k < i + 1 && #[trigger] names@[k]@ == binary_name(pid, version) {
                    let k = choose|k: int|
                        0 <= k < i + 1 && #[trigger] names@[k]@ == binary_name(pid, version);
                    if k < i {
                        assert(old_r.contains((pid, version)));
                        let j = choose|j: int| 0 <= j < old_r.len() && old_r[j] == (pid, version);
                        assert(r@[j] == (pid, version));
                    } else {
                        assert(r@[r@.len() - 1] == (pid, version));
                    }
                }
            }
        }
        i = i + 1;
    }
    r
}

/// The reconciliation of every listed program, given the artifacts found.
pub fn reconcile_plan(found: &Vec<(u128, i64)>, programs: &Vec<ProgramRecord>) -> (r: Vec<
    ReconcileAction,
>)
    ensures
        r@.len() == programs@.len(),
        forall|i: int|
            0 <= i < programs@.len() ==> #[trigger] r@[i] == reconcile_action_of(
                programs@[i].status,
                found@.contains(key_of(programs@[i])),
            ),
{
    let mut r: Vec<ReconcileAction> = Vec::new();
    let mut i: usize = 0;
    while i < programs.len()
        invariant
            i <= programs@.len(),
            r@.len() == i,
            forall|k: int|
                0 <= k < i ==> #[trigger] r@[k] == reconcile_action_of(
                    programs@[k].status,
                    found@.contains(key_of(programs@[k])),
                ),
        decreases programs@.len() - i,
    {
        let p = &programs[i];
        let has = binaries_contain(found, p.program_id, p.version);
        let a = reconcile_action(&p.status, has);
        r.push(a);
        i = i + 1;
    }
    r
}

/// Status of a program after its reconciliation action has been carried out.
pub open spec fn reconciled_program(p: ProgramRecord, files: Set<(u128, i64)>) -> ProgramRecord {
    if reconcile_action_of(p.status, files.contains(key_of(p))) == ReconcileAction::Keep {
        p
    } else {
        ProgramRecord { status: ProgramStatus::Pending, ..p }
    }
}

/// The catalog after one reconciliation run.
pub open spec fn reconciled_programs(progs: Seq<ProgramRecord>, files: Set<(u128, i64)>) -> Seq<
    ProgramRecord,
> {
    progs.map_values(|p: ProgramRecord| reconciled_program(p, files))
}

/// The artifacts left after one reconciliation run.
pub open spec fn reconciled_files(progs: Seq<ProgramRecord>, files: Set<(u128, i64)>) -> Set<
    (u128, i64),
> {
    files.filter(
        |k: (u128, i64)|
            !(exists|i: int|
                0 <= i < progs.len() && key_of(#[trigger] progs[i]) == k
                    && progs[i].status is CompilingRust),
    )
}

pub open spec fn distinct_programs(progs: Seq<ProgramRecord>) -> bool {
    forall|i: int, j: int|
        0 <= i < progs.len() && 0 <= j < progs.len() && i != j ==> #[trigger] progs[i].program_id
            != #[trigger] progs[j].program_id
}

/// The action that `reconcile_plan` picks for a program is the one that the
/// reconciliation model applies, with the artifacts found taken as a set.
pub proof fn lemma_plan_agrees_with_model(found: Seq<(u128, i64)>, p: ProgramRecord)
    ensures
        (reconcile_action_of(p.status, found.contains(key_of(p))) == ReconcileAction::Keep)
            ==> reconciled_program(p, found.to_set()) == p,
        (reconcile_action_of(p.status, found.contains(key_of(p))) != ReconcileAction::Keep)
            ==> reconciled_program(p, found.to_set()).status == ProgramStatus::Pending,
        (reconcile_action_of(p.status, found.contains(key_of(p)))
            == ReconcileAction::RemoveBinaryAndRequeue) <==> (found.to_set().contains(key_of(p))
            && p.status is CompilingRust),
{
    assert(found.to_set().contains(key_of(p)) == found.contains(key_of(p)));
}

/// Reconciling twice with nothing in between leaves the catalog and the
/// artifact directory as reconciling once does.
pub proof fn lemma_reconcile_idempotent(progs: Seq<ProgramRecord>, files: Set<(u128, i64)>)
    requires
        distinct_programs(progs),
    ensures
        reconciled_programs(reconciled_programs(progs, files), reconciled_files(progs, files))
            == reconciled_programs(progs, files),
        reconciled_files(reconciled_programs(progs, files), reconciled_files(progs, files))
            == reconciled_files(progs, files),
{
    let p1 = reconciled_programs(progs, files);
    let f1 = reconciled_files(progs, files);
    assert forall|i: int| 0 <= i < progs.len() implies f1.contains(key_of(progs[i]))
        == (files.contains(key_of(progs[i])) && !(progs[i].status is CompilingRust)) by {
        let k = key_of(progs[i]);
        if files.contains(k) && !(progs[i].status is CompilingRust) {
            if exists|j: int|
                0 <= j < progs.len() && key_of(#[trigger] progs[j]) == k
                    && progs[j].status is CompilingRust {
                let j = choose|j: int|
                    0 <= j < progs.len() && key_of(#[trigger] progs[j]) == k
                        && progs[j].status is CompilingRust;
                assert(progs[i].program_id != progs[j].program_id);
            }
        }
    }
    assert(reconciled_programs(p1, f1) =~= p1);
    assert forall|k: (u128, i64)| #[trigger] f1.contains(k) implies !(exists|i: int|
        0 <= i < p1.len() && key_of(#[trigger] p1[i]) == k && p1[i].status is CompilingRust) by {
        if exists|i: int|
            0 <= i < p1.len() && key_of(#[trigger] p1[i]) == k && p1[i].status is CompilingRust {
            let i = choose|i: int|
                0 <= i < p1.len() && key_of(#[trigger] p1[i]) == k && p1[i].status is CompilingRust;
            assert(progs[i].status is CompilingRust);
        }
    }
    assert(reconciled_files(p1, f1) =~= f1);
}

} // verus!
