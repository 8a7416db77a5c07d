//! Ordered boot-step sequencer.
//!
//! The boot sequence is a fixed, declared list of labeled steps, some
//! flagged as skipped. The sequencer provides ordering and progress
//! reporting only: the non-skipped steps run strictly in declaration
//! order, and after each one a line `n/total label` is emitted, where
//! both the counter and the total count non-skipped steps alone. There
//! is no rollback, no retry and no branching. The plan computed here is
//! verified; the unverified shell walks it, runs each step's action and
//! emits its line.

use vstd::prelude::*;
use crate::decimal::{dec_rep, u64_to_dec};

verus! {

/// One declared boot step: a diagnostic label, and whether the step is
/// statically skipped.
#[derive(PartialEq, Eq, Debug)]
pub struct BootStep {
    pub label: Vec<u8>,
    pub skip: bool,
}

/// One entry of the execution plan: which declared step to run, and the
/// progress line to emit once its action completes.
#[derive(PartialEq, Eq, Debug)]
pub struct PlannedStep {
    pub index: usize,
    pub line: Vec<u8>,
}

/// The indices of the non-skipped steps, in declaration order.
pub open spec fn active_indices(steps: Seq<BootStep>) -> Seq<int>
    decreases steps.len(),
{
    if steps.len() == 0 {
        Seq::empty()
    } else if steps.last().skip {
        active_indices(steps.drop_last())
    } else {
        active_indices(steps.drop_last()) + seq![steps.len() - 1]
    }
}

/// How many steps actually run.
pub open spec fn active_count(steps: Seq<BootStep>) -> nat {
    active_indices(steps).len()
}

/// The progress line emitted after the `n`-th of `total` non-skipped
/// steps: `n/total label`.
pub open spec fn progress_line(n: nat, total: nat, label: Seq<u8>) -> Seq<u8> {
    dec_rep(n) + seq![0x2Fu8] + dec_rep(total) + seq![0x20u8] + label
}

/// One plan entry is correct: it names the `i`-th non-skipped step and
/// carries that step's progress line, numbered `i + 1` of `total`.
pub open spec fn planned_entry(
    steps: Seq<BootStep>,
    plan: Seq<PlannedStep>,
    i: int,
    total: nat,
) -> bool {
    &&& plan[i].index == active_indices(steps)[i]
    &&& plan[i].line@ == progress_line(
        (i + 1) as nat,
        total,
        steps[active_indices(steps)[i]].label@,
    )
}

/// The whole plan is correct: one entry per non-skipped step, in
/// declaration order, each with its progress line over the non-skipped
/// total.
pub open spec fn plan_ok(steps: Seq<BootStep>, plan: Seq<PlannedStep>) -> bool {
    &&& plan.len() == active_count(steps)
    &&& forall|i: int|
        0 <= i < plan.len() ==> #[trigger] planned_entry(steps, plan, i, active_count(steps))
}

/// The plan runs declared steps only, strictly in declaration order:
/// every active index names a declared step, and the indices are
/// strictly increasing.
pub proof fn lemma_active_indices_ordered(steps: Seq<BootStep>)
    ensures
        forall|i: int|
            0 <= i < active_indices(steps).len() ==> 0 <= #[trigger] active_indices(steps)[i]
                < steps.len(),
        forall|i: int, j: int|
            0 <= i < j < active_indices(steps).len() ==> #[trigger] active_indices(steps)[i]
                < #[trigger] active_indices(steps)[j],
    decreases steps.len(),
{
    if steps.len() > 0 {
        let prefix = steps.drop_last();
        lemma_active_indices_ordered(prefix);
        if !steps.last().skip {
            let appended = active_indices(prefix) + seq![steps.len() - 1];
            assert(active_indices(steps) == appended);
            assert forall|i: int|
                0 <= i < active_indices(steps).len() implies 0 <= #[trigger] active_indices(
                steps,
            )[i] < steps.len() by {
                if i < active_indices(prefix).len() {
                    assert(active_indices(steps)[i] == active_indices(prefix)[i]);
                } else {
                    assert(active_indices(steps)[i] == steps.len() - 1);
                }
            }
            assert forall|i: int, j: int|
                0 <= i < j < active_indices(steps).len() implies #[trigger] active_indices(
                steps,
            )[i] < #[trigger] active_indices(steps)[j] by {
                if j < active_indices(prefix).len() {
                    assert(active_indices(steps)[i] == active_indices(prefix)[i]);
                    assert(active_indices(steps)[j] == active_indices(prefix)[j]);
                } else {
                    assert(active_indices(steps)[j] == steps.len() - 1);
                    assert(active_indices(steps)[i] == active_indices(prefix)[i]);
                    assert(active_indices(prefix)[i] < prefix.len());
                }
            }
        }
    }
}

/// Extending the declared list by one step appends its index to the
/// active list exactly when the step is not skipped.
proof fn lemma_active_take_step(steps: Seq<BootStep>, j: int)
    requires
        0 <= j < steps.len(),
    ensures
        !steps[j].skip ==> active_indices(steps.take(j + 1)) == active_indices(steps.take(j))
            + seq![j],
        steps[j].skip ==> active_indices(steps.take(j + 1)) == active_indices(steps.take(j)),
{
    assert(steps.take(j + 1).drop_last() =~= steps.take(j));
    assert(steps.take(j + 1).last() == steps[j]);
}

/// Append a copy of `src` to `dst`.
fn push_bytes(dst: &mut Vec<u8>, src: &Vec<u8>)
    ensures
        final(dst)@ == old(dst)@ + src@,
{
    let mut i: usize = 0;
    while i < src.len()
        invariant
            i <= src@.len(),
            dst@ == old(dst)@ + src@.take(i as int),
        decreases src@.len() - i,
    {
        dst.push(src[i]);
        proof {
            assert(old(dst)@ + src@.take(i + 1) =~= (old(dst)@ + src@.take(i as int)) + seq![
                src@[i as int],
            ]);
        }
        i = i + 1;
    }
    proof {
        assert(src@.take(src@.len() as int) =~= src@);
    }
}

/// Render one progress line: `n/total label`.
pub fn progress_line_bytes(n: u64, total: u64, label: &Vec<u8>) -> (line: Vec<u8>)
    ensures
        line@ == progress_line(n as nat, total as nat, label@),
{
    let mut line = u64_to_dec(n);
    line.push(0x2F);
    let t = u64_to_dec(total);
    push_bytes(&mut line, &t);
    line.push(0x20);
    push_bytes(&mut line, label);
    proof {
        assert(line@ =~= progress_line(n as nat, total as nat, label@));
    }
    line
}

/// How many of the declared steps are not skipped.
pub fn active_total(steps: &Vec<BootStep>) -> (n: usize)
    ensures
        n == active_count(steps@),
{
    let mut count: usize = 0;
    let mut j: usize = 0;
    while j < steps.len()
        invariant
            j <= steps@.len(),
            count <= j,
            count == active_count(steps@.take(j as int)),
        decreases steps@.len() - j,
    {
        proof {
            lemma_active_take_step(steps@, j as int);
        }
        if !steps[j].skip {
            count = count + 1;
        }
        j = j + 1;
    }
    proof {
        assert(steps@.take(steps@.len() as int) =~= steps@);
    }
    count
}

/// Compute the execution plan for a declared step list: the non-skipped
/// steps in declaration order, each paired with the progress line to
/// emit after its action completes.
pub fn plan(steps: &Vec<BootStep>) -> (r: Vec<PlannedStep>)
    ensures
        plan_ok(steps@, r@),
{
    let total = active_total(steps);
    let mut r: Vec<PlannedStep> = Vec::new();
    let mut j: usize = 0;
    while j < steps.len()
        invariant
            j <= steps@.len(),
            total == active_count(steps@),
            r@.len() == active_count(steps@.take(j as int)),
            r@.len() <= j,
            forall|i: int|
                0 <= i < r@.len() ==> {
                    &&& #[trigger] r@[i].index == active_indices(steps@.take(j as int))[i]
                    &&& r@[i].line@ == progress_line(
                        (i + 1) as nat,
                        total as nat,
                        steps@[active_indices(steps@.take(j as int))[i]].label@,
                    )
                },
        decreases steps@.len() - j,
    {
        proof {
            lemma_active_take_step(steps@, j as int);
        }
        if !steps[j].skip {
            let n = r.len() + 1;
            let line = progress_line_bytes(n as u64, total as u64, &steps[j].label);
            r.push(PlannedStep { index: j, line });
        }
        j = j + 1;
    }
    proof {
        assert(steps@.take(steps@.len() as int) =~= steps@);
        assert forall|i: int| 0 <= i < r@.len() implies #[trigger] planned_entry(
            steps@,
            r@,
            i,
            active_count(steps@),
        ) by {
            assert(r@[i].index == active_indices(steps@)[i]);
        }
    }
    r
}

} // verus!
