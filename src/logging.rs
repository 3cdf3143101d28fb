use vstd::prelude::*;

verus! {

/// Size, in bytes, above which the log is rotated.
pub const MAX_LOG_BYTES: u64 = 10 * 1024 * 1024;

/// Number of rotated logs kept: `.log.1` to `.log.5`.
pub const KEPT_BACKUPS: usize = 5;

/// One file operation on the logs. Number 0 is the current log, `n` the
/// rotated log `.log.n`.
#[derive(Debug, Clone, Copy, PartialEq, Eq, Structural)]
pub enum LogAction {
    Remove(u32),
    Rename(u32, u32),
}

/// The actions that move backup `i` to `i + 1`, given which backups exist
/// (`p[k]` tells whether `.log.(k + 1)` exists): the target is removed
/// first when present.
pub open spec fn shift_one(p: Seq<bool>, i: int) -> Seq<LogAction> {
    if p[i - 1] {
        (if p[i] { seq![LogAction::Remove((i + 1) as u32)] } else { Seq::empty() }) + seq![
            LogAction::Rename(i as u32, (i + 1) as u32),
        ]
    } else {
        Seq::empty()
    }
}

/// Which backups exist once backup `i` has moved to `i + 1`.
pub open spec fn after_shift_one(p: Seq<bool>, i: int) -> Seq<bool> {
    if p[i - 1] {
        p.update(i, true).update(i - 1, false)
    } else {
        p
    }
}

/// The actions that move backups `i`, `i - 1`, ..., `1` up by one.
pub open spec fn shift_all(p: Seq<bool>, i: int) -> Seq<LogAction>
    decreases i,
{
    if i < 1 {
        Seq::empty()
    } else {
        shift_one(p, i) + shift_all(after_shift_one(p, i), i - 1)
    }
}

/// Which backups exist once backups `i` down to `1` have moved up.
pub open spec fn after_shift_all(p: Seq<bool>, i: int) -> Seq<bool>
    decreases i,
{
    if i < 1 {
        p
    } else {
        after_shift_all(after_shift_one(p, i), i - 1)
    }
}

/// The rotation of the logs: nothing unless the current log exists and is
/// larger than `MAX_LOG_BYTES`; else backups 4 down to 1 each move up by
/// one (replacing the next), `.log.1` is removed if still there, and the
/// current log becomes `.log.1`.
pub open spec fn rotation(log_size: Option<u64>, p: Seq<bool>) -> Seq<LogAction> {
    match log_size {
        Some(n) => if n > MAX_LOG_BYTES {
            shift_all(p, 4) + (if after_shift_all(p, 4)[0] {
                seq![LogAction::Remove(1)]
            } else {
                Seq::empty()
            }) + seq![LogAction::Rename(0, 1)]
        } else {
            Seq::empty()
        },
        None => Seq::empty(),
    }
}

/// The file operations that rotate the logs, in order. `log_size` is the
/// size of the current log (`None` when it does not exist) and
/// `backups[k]` tells whether `.log.(k + 1)` exists, for the five kept.
pub fn rotation_plan(log_size: Option<u64>, backups: &Vec<bool>) -> (r: Vec<LogAction>)
    requires
        backups@.len() == KEPT_BACKUPS,
    ensures
        r@ == rotation(log_size, backups@),
{
    let big = match log_size {
        Some(n) => n > MAX_LOG_BYTES,
        None => false,
    };
    if !big {
        return Vec::new();
    }
    let mut p: Vec<bool> = Vec::new();
    let mut k: usize = 0;
    while k < backups.len()
        invariant
            k <= backups@.len(),
            p@ == backups@.subrange(0, k as int),
        decreases backups.len() - k,
    {
        p.push(backups[k]);
        k = k + 1;
    }
    assert(p@ =~= backups@);
    let mut acts: Vec<LogAction> = Vec::new();
    let mut i: usize = 4;
    while i >= 1
        invariant
            0 <= i <= 4,
            p@.len() == KEPT_BACKUPS,
            acts@ + shift_all(p@, i as int) == shift_all(backups@, 4),
            after_shift_all(p@, i as int) == after_shift_all(backups@, 4),
        decreases i,
    {
        let ghost before = acts@;
        let ghost p0 = p@;
        if p[i - 1] {
            if p[i] {
                acts.push(LogAction::Remove((i + 1) as u32));
            }
            acts.push(LogAction::Rename(i as u32, (i + 1) as u32));
            p.set(i, true);
            p.set(i - 1, false);
        }
        assert(acts@ =~= before + shift_one(p0, i as int));
        assert(p@ =~= after_shift_one(p0, i as int));
        assert(before + shift_all(p0, i as int) =~= before + shift_one(p0, i as int) + shift_all(
            after_shift_one(p0, i as int),
            i - 1,
        ));
        i = i - 1;
    }
    let ghost before = acts@;
    if p[0] {
        acts.push(LogAction::Remove(1));
    }
    acts.push(LogAction::Rename(0, 1));
    assert(acts@ =~= rotation(log_size, backups@));
    acts
}

/// The old logs to remove: `.log.6` to `.log.10`, those that exist
/// (`present[k]` tells whether `.log.(k + 6)` exists).
pub fn cleanup_plan(present: &Vec<bool>) -> (r: Vec<u32>)
    requires
        present@.len() == 5,
    ensures
        forall|n: u32| r@.contains(n) <==> (6 <= n <= 10 && present@[n - 6]),
        forall|a: int, b: int| 0 <= a < b < r@.len() ==> r@[a] < r@[b],
{
    let mut r: Vec<u32> = Vec::new();
    let mut k: usize = 0;
    while k < 5
        invariant
            present@.len() == 5,
            k <= 5,
            forall|n: u32| r@.contains(n) <==> (6 <= n < 6 + k && present@[n - 6]),
            forall|a: int, b: int| 0 <= a < b < r@.len() ==> r@[a] < r@[b],
            forall|a: int| 0 <= a < r@.len() ==> r@[a] < 6 + k,
        decreases 5 - k,
    {
        if present[k] {
            let ghost before = r@;
            r.push((k + 6) as u32);
            assert forall|n: u32| r@.contains(n) <==> (6 <= n < 6 + k + 1 && present@[n - 6]) by {
                if n == k + 6 {
                    assert(r@[r@.len() - 1] == n);
                }
                if r@.contains(n) && n != k + 6 {
                    let j = choose|j: int| 0 <= j < r@.len() && r@[j] == n;
                    assert(j < before.len());
                    assert(before.contains(n));
                }
                if 6 <= n < 6 + k && present@[n - 6] {
                    assert(before.contains(n));
                    let j = choose|j: int| 0 <= j < before.len() && before[j] == n;
                    assert(r@[j] == n);
                }
            }
        } else {
            assert forall|n: u32| r@.contains(n) <==> (6 <= n < 6 + k + 1 && present@[n - 6]) by {
                if r@.contains(n) {
                    let j = choose|j: int| 0 <= j < r@.len() && r@[j] == n;
                    assert(r@[j] < 6 + k);
                }
            }
        }
        k = k + 1;
    }
    r
}

} // verus!
