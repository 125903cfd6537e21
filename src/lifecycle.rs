use vstd::prelude::*;
use crate::userdata::{WindowData, WindowMap, can_enter, enter_spec, leave_spec, detach_spec};

verus! {

/// One thing the dispatcher does to a window's state: start an invocation,
/// end one, or detach the state on a destroy request.
pub enum Step {
    Enter,
    Leave,
    Detach,
}

pub open spec fn apply_step(m: WindowMap, w: isize, s: Step) -> WindowMap {
    match s {
        Step::Enter => enter_spec(m, w),
        Step::Leave => leave_spec(m, w),
        Step::Detach => detach_spec(m, w),
    }
}

/// The dispatcher takes `s` on `w` only in these states: an invocation starts
/// only on attached state that is not removed; one ends, or handles a destroy
/// request, only while it runs.
pub open spec fn step_allowed(m: WindowMap, w: isize, s: Step) -> bool {
    &&& m.contains_key(w)
    &&& match s {
        Step::Enter => can_enter(m, w),
        Step::Leave => m[w].recurse_depth > 0,
        Step::Detach => m[w].recurse_depth > 0,
    }
}

/// The table after `steps`, taken in order on `w`.
pub open spec fn run(m: WindowMap, w: isize, steps: Seq<Step>) -> WindowMap
    decreases steps.len(),
{
    if steps.len() == 0 {
        m
    } else {
        apply_step(run(m, w, steps.drop_last()), w, steps.last())
    }
}

pub open spec fn valid_run(m: WindowMap, w: isize, steps: Seq<Step>) -> bool {
    forall|i: int| 0 <= i < steps.len() ==> step_allowed(#[trigger] run(m, w, steps.take(i)), w, steps[i])
}

/// The step at `i` is the one that frees the state of `w`.
pub open spec fn frees_at(m: WindowMap, w: isize, steps: Seq<Step>, i: int) -> bool {
    &&& run(m, w, steps.take(i)).contains_key(w)
    &&& !run(m, w, steps.take(i + 1)).contains_key(w)
}

/// How many times the steps free the state of `w`.
pub open spec fn frees(m: WindowMap, w: isize, steps: Seq<Step>) -> nat
    decreases steps.len(),
{
    if steps.len() == 0 {
        0
    } else {
        let before = run(m, w, steps.drop_last());
        let after = run(m, w, steps);
        frees(m, w, steps.drop_last()) + if before.contains_key(w) && !after.contains_key(w) {
            1nat
        } else {
            0nat
        }
    }
}

proof fn lemma_valid_prefix(m: WindowMap, w: isize, steps: Seq<Step>)
    requires
        steps.len() > 0,
        valid_run(m, w, steps),
    ensures
        valid_run(m, w, steps.drop_last()),
        step_allowed(run(m, w, steps.drop_last()), w, steps.last()),
{
    let p = steps.drop_last();
    assert forall|i: int| 0 <= i < p.len() implies step_allowed(
        #[trigger] run(m, w, p.take(i)),
        w,
        p[i],
    ) by {
        assert(p.take(i) =~= steps.take(i));
        assert(step_allowed(run(m, w, steps.take(i)), w, steps[i]));
    }
    assert(steps.take(steps.len() - 1) =~= p);
    assert(step_allowed(run(m, w, steps.take(steps.len() - 1)), w, steps[steps.len() - 1]));
}

/// However invocations on one window nest, and wherever the destroy request
/// comes among them, its state is freed at most once; it is freed exactly when
/// it was removed and the invocations have all unwound; and the step that frees
/// it is the end of the outermost invocation, the last thing that touches it.
pub proof fn lemma_state_freed_once(m: WindowMap, w: isize, steps: Seq<Step>)
    requires
        m.contains_key(w),
        m[w] == WindowData::fresh(),
        valid_run(m, w, steps),
    ensures
        frees(m, w, steps) <= 1,
        frees(m, w, steps) == 1 <==> !run(m, w, steps).contains_key(w),
        run(m, w, steps).contains_key(w) && run(m, w, steps)[w].removed
            ==> run(m, w, steps)[w].recurse_depth > 0,
        forall|i: int|
            0 <= i < steps.len() && #[trigger] frees_at(m, w, steps, i) ==> {
                &&& i == steps.len() - 1
                &&& steps[i] == Step::Leave
                &&& run(m, w, steps.take(i))[w].removed
                &&& run(m, w, steps.take(i))[w].recurse_depth == 1
            },
    decreases steps.len(),
{
    if steps.len() == 0 {
        assert forall|i: int| 0 <= i < steps.len() && #[trigger] frees_at(m, w, steps, i) implies i
            == steps.len() - 1 by {}
    } else {
        let p = steps.drop_last();
        let n = steps.len() - 1;
        lemma_valid_prefix(m, w, steps);
        lemma_state_freed_once(m, w, p);
        let before = run(m, w, p);
        let after = run(m, w, steps);
        assert(before.contains_key(w));
        assert(frees(m, w, p) == 0);
        assert(steps.take(n) =~= p);
        assert(steps.take(n + 1) =~= steps);
        assert forall|i: int| 0 <= i < steps.len() && #[trigger] frees_at(m, w, steps, i) implies {
            &&& i == steps.len() - 1
            &&& steps[i] == Step::Leave
            &&& run(m, w, steps.take(i))[w].removed
            &&& run(m, w, steps.take(i))[w].recurse_depth == 1
        } by {
            if i < n {
                assert(p.take(i) =~= steps.take(i));
                assert(p.take(i + 1) =~= steps.take(i + 1));
                assert(frees_at(m, w, p, i));
                assert(p.take(i + 1) =~= p);
            }
        }
    }
}

} // verus!
