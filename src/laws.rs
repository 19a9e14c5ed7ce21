use vstd::prelude::*;

use crate::bridge::{prepared, prepared_from, request_of, Invocation};
use crate::error::{BoundaryField, TemplateError};
use crate::guard::{
    after_copy, after_release, fresh_view, guard_wf, step_of, GuardStep, GuardView, Slot,
};
use crate::marshal::{holds_nul, holds_nul_escape, refused_at};
use crate::options::RenderOptions;

verus! {

/// The guard's state after the holder has done `step` in state `v`, where
/// `output` and `error` are the texts of the two buffers.
pub open spec fn after_step(v: GuardView, step: GuardStep, output: Seq<char>, error: Seq<char>) -> GuardView {
    match step {
        GuardStep::Copy(Slot::Output) => after_copy(v, Slot::Output, output),
        GuardStep::Copy(Slot::Error) => after_copy(v, Slot::Error, error),
        GuardStep::Release(slot) => after_release(v, slot),
        GuardStep::Finish => v,
    }
}

/// The guard's state after the holder has done `n` steps as asked, from `v`.
pub open spec fn run_steps(v: GuardView, n: nat, output: Seq<char>, error: Seq<char>) -> GuardView
    decreases n,
{
    if n == 0 {
        v
    } else {
        run_steps(after_step(v, step_of(v), output, error), (n - 1) as nat, output, error)
    }
}

/// The number of buffers released over a series of renders, one guard each.
pub open spec fn total_released(guards: Seq<GuardView>) -> nat
    decreases guards.len(),
{
    if guards.len() == 0 {
        0
    } else {
        total_released(guards.drop_last()) + guards.last().log.len()
    }
}

/// A guard that asks to finish has released each buffer exactly once.
pub proof fn lemma_finished_guard_released_both(v: GuardView)
    requires
        guard_wf(v),
        step_of(v) == GuardStep::Finish,
    ensures
        v.log.len() == 2,
        v.log.contains(Slot::Output),
        v.log.contains(Slot::Error),
        v.log.no_duplicates(),
{
    assert(crate::guard::released(v, Slot::Output) && crate::guard::released(v, Slot::Error));
    assert(v.log.contains(Slot::Output) && v.log.contains(Slot::Error));
    assert(v.log.to_set() =~= set![Slot::Output, Slot::Error]) by {
        assert forall|s: Slot| v.log.to_set().contains(s) <==> (s == Slot::Output || s
            == Slot::Error) by {
            if s == Slot::Output {
            } else {
                assert(s == Slot::Error);
            }
        }
    }
    v.log.unique_seq_to_set();
    assert(set![Slot::Output, Slot::Error].len() == 2);
}

/// A guard that takes a result and is driven as it asks copies both texts,
/// then releases each buffer once, and is finished after four steps; every
/// state on the way keeps the guard's invariant.
pub proof fn lemma_guard_run_releases_each_once(output: Seq<char>, error: Seq<char>)
    ensures
        forall|n: nat| n <= 4 ==> guard_wf(#[trigger] run_steps(fresh_view(), n, output, error)),
        forall|n: nat| n < 4 ==> step_of(#[trigger] run_steps(fresh_view(), n, output, error)) != GuardStep::Finish,
        step_of(run_steps(fresh_view(), 4, output, error)) == GuardStep::Finish,
        run_steps(fresh_view(), 4, output, error).log == seq![Slot::Output, Slot::Error],
        run_steps(fresh_view(), 4, output, error).output == Some(output),
        run_steps(fresh_view(), 4, output, error).error == Some(error),
{
    let v0 = fresh_view();
    let v1 = after_copy(v0, Slot::Output, output);
    let v2 = after_copy(v1, Slot::Error, error);
    let v3 = after_release(v2, Slot::Output);
    let v4 = after_release(v3, Slot::Error);
    assert(run_steps(v4, 0, output, error) == v4);
    assert(run_steps(v3, 0, output, error) == v3);
    assert(run_steps(v2, 0, output, error) == v2);
    assert(run_steps(v1, 0, output, error) == v1);
    assert(run_steps(v3, 1, output, error) == v4);
    assert(run_steps(v2, 2, output, error) == v4);
    assert(run_steps(v1, 3, output, error) == v4);
    assert(run_steps(v0, 4, output, error) == v4);
    assert(run_steps(v2, 1, output, error) == v3);
    assert(run_steps(v1, 2, output, error) == v3);
    assert(run_steps(v0, 3, output, error) == v3);
    assert(run_steps(v1, 1, output, error) == v2);
    assert(run_steps(v0, 2, output, error) == v2);
    assert(run_steps(v0, 1, output, error) == v1);
    assert(run_steps(v0, 0, output, error) == v0);
    assert(v3.log =~= seq![Slot::Output]);
    assert(v4.log =~= seq![Slot::Output, Slot::Error]);
    assert(v3.log.contains(Slot::Output) && v3.log[0] == Slot::Output);
    assert(v4.log[0] == Slot::Output && v4.log[1] == Slot::Error);
    assert forall|s: Slot| !v0.log.contains(s) by {}
    assert forall|s: Slot| v3.log.contains(s) <==> s == Slot::Output by {}
    assert forall|s: Slot| v4.log.contains(s) by {
        if s == Slot::Output {
        } else {
            assert(s == Slot::Error);
        }
    }
}

/// Over a series of finished renders, exactly two buffers are released per
/// render: none is left held and none is released twice.
pub proof fn lemma_renders_release_two_each(guards: Seq<GuardView>)
    requires
        forall|i: int|
            0 <= i < guards.len() ==> guard_wf(#[trigger] guards[i]) && step_of(guards[i])
                == GuardStep::Finish,
    ensures
        total_released(guards) == 2 * guards.len(),
    decreases guards.len(),
{
    if guards.len() > 0 {
        let rest = guards.drop_last();
        assert forall|i: int| 0 <= i < rest.len() implies guard_wf(#[trigger] rest[i])
            && step_of(rest[i]) == GuardStep::Finish by {
            assert(rest[i] == guards[i]);
        }
        lemma_renders_release_two_each(rest);
        lemma_finished_guard_released_both(guards[guards.len() - 1]);
    }
}

/// Input that holds a null character never reaches the engine: preparing the
/// call fails with `InvalidInput` where the template holds a null byte, or the
/// data's JSON text holds one or writes one as a `\u0000` escape. A request
/// that is built holds exactly one null byte in each buffer, as its last byte,
/// and no such escape in its data.
pub proof fn lemma_nul_never_crosses(
    r: Result<Invocation, TemplateError>,
    t: Seq<u8>,
    d: Seq<u8>,
    options: RenderOptions,
)
    requires
        prepared(r, t, d, options),
    ensures
        holds_nul(t) ==> (r matches Err(e) && refused_at(e, BoundaryField::Template, t)),
        holds_nul(d) || holds_nul_escape(d) ==> (r matches Err(e) && e.kind is InvalidInput),
        r matches Ok(inv) ==> {
            &&& inv@.template.last() == 0 && !holds_nul(inv@.template.drop_last())
            &&& inv@.data.last() == 0 && !holds_nul(inv@.data.drop_last())
            &&& !holds_nul_escape(inv@.data.drop_last())
        },
{
    if r is Ok {
        assert(t.push(0).drop_last() =~= t);
        assert(d.push(0).drop_last() =~= d);
    }
}

/// A failed serialization builds no request: the call fails, with the
/// serializer's own error unless the template was refused first.
pub proof fn lemma_failed_serialization_builds_nothing(
    r: Result<Invocation, TemplateError>,
    t: Seq<u8>,
    json: Result<String, TemplateError>,
    options: RenderOptions,
)
    requires
        prepared_from(r, t, json, options),
        json is Err,
    ensures
        r is Err,
        !holds_nul(t) ==> r == Err::<Invocation, TemplateError>(json->Err_0),
{
}

/// The options set only the two flags of a request: for the same template and
/// data, requests made under any two options hand over the same buffers, and
/// two options with the same escaping and missing-key policy give the same
/// request.
pub proof fn lemma_options_set_only_flags(t: Seq<u8>, d: Seq<u8>, a: RenderOptions, b: RenderOptions)
    ensures
        request_of(t, d, a).template == request_of(t, d, b).template,
        request_of(t, d, a).data == request_of(t, d, b).data,
        request_of(t, d, a).escape_html == a.escape_html,
        request_of(t, d, a).missing_key_zero == (a.missing_key
            == crate::options::MissingKeyPolicy::ZeroOnMissing),
        a == b ==> request_of(t, d, a) == request_of(t, d, b),
{
}

} // verus!
