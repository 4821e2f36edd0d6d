//! Whole runs of the invocation protocol, and what holds of every one of
//! them.
//!
//! A run is the sequence of actions that an invocation hands out while a
//! driver answers each of them in turn. The driver has two choices only:
//! whether the name resolves, and whether the invocation succeeds. The
//! theorems below say what the run is for each of them.

use vstd::prelude::*;
use crate::error::ErrorKind;
use crate::invoke::{
    call_plan, method_or_get, put_plan, ActionData, EventData, Machine, ParamsData, PhaseData,
    Temporary, DISPATCH_PROPERTYPUT, DISPID_PROPERTYPUT,
};
use crate::variant::Value;
use crate::wire::ObjectRef;

verus! {

/// The actions that an invocation hands out, one for each event.
pub open spec fn run(machine: Machine, events: Seq<EventData>) -> Seq<ActionData>
    decreases events.len(),
{
    if events.len() == 0 {
        Seq::empty()
    } else {
        let (next, action) = machine.step(events.first());
        seq![action] + run(next, events.drop_first())
    }
}

/// The event "released", `count` times.
pub open spec fn released(count: nat) -> Seq<EventData> {
    Seq::new(count, |i: int| EventData::Released)
}

/// The releases that an invocation with `arguments` argument temporaries
/// asks for: the arguments from the highest place down, and after them the
/// result where `result` says so.
pub open spec fn releases(arguments: nat, result: bool) -> Seq<ActionData>
    decreases arguments,
{
    if arguments > 0 {
        seq![ActionData::Release(Temporary::Argument((arguments - 1) as usize))] + releases(
            (arguments - 1) as nat,
            result,
        )
    } else if result {
        seq![ActionData::Release(Temporary::Result)]
    } else {
        Seq::empty()
    }
}

/// How many of the actions release the temporary `t`.
pub open spec fn times_released(actions: Seq<ActionData>, t: Temporary) -> nat
    decreases actions.len(),
{
    if actions.len() == 0 {
        0
    } else {
        let rest = times_released(actions.drop_first(), t);
        if actions.first() == ActionData::Release(t) {
            rest + 1
        } else {
            rest
        }
    }
}

/// How many of the actions are invocations.
pub open spec fn times_invoked(actions: Seq<ActionData>) -> nat
    decreases actions.len(),
{
    if actions.len() == 0 {
        0
    } else {
        let rest = times_invoked(actions.drop_first());
        if actions.first() is Invoke {
            rest + 1
        } else {
            rest
        }
    }
}

/// How many releases there are: one for each argument, and one more where
/// the result is released.
pub open spec fn release_count(arguments: nat, result: bool) -> nat {
    if result {
        arguments + 1
    } else {
        arguments
    }
}

proof fn lemma_times_released_concat(a: Seq<ActionData>, b: Seq<ActionData>, t: Temporary)
    ensures
        times_released(a + b, t) == times_released(a, t) + times_released(b, t),
    decreases a.len(),
{
    if a.len() == 0 {
        assert(a + b =~= b);
    } else {
        assert((a + b).drop_first() =~= a.drop_first() + b);
        lemma_times_released_concat(a.drop_first(), b, t);
    }
}

proof fn lemma_times_invoked_concat(a: Seq<ActionData>, b: Seq<ActionData>)
    ensures
        times_invoked(a + b) == times_invoked(a) + times_invoked(b),
    decreases a.len(),
{
    if a.len() == 0 {
        assert(a + b =~= b);
    } else {
        assert((a + b).drop_first() =~= a.drop_first() + b);
        lemma_times_invoked_concat(a.drop_first(), b);
    }
}

proof fn lemma_times_released_one(action: ActionData, t: Temporary)
    ensures
        times_released(seq![action], t) == if action == ActionData::Release(t) {
            1nat
        } else {
            0nat
        },
        times_invoked(seq![action]) == if action is Invoke {
            1nat
        } else {
            0nat
        },
{
    reveal_with_fuel(times_released, 2);
    reveal_with_fuel(times_invoked, 2);
    assert(seq![action].drop_first() =~= Seq::<ActionData>::empty());
}

/// Among the releases of an invocation, each argument place occurs once,
/// the result once where it is released, and nothing is invoked.
pub proof fn lemma_releases_once(arguments: nat, result: bool, t: Temporary)
    requires
        arguments <= usize::MAX,
    ensures
        times_released(releases(arguments, result), t) == match t {
            Temporary::Argument(place) => if place < arguments {
                1nat
            } else {
                0nat
            },
            Temporary::Result => if result {
                1nat
            } else {
                0nat
            },
        },
        times_invoked(releases(arguments, result)) == 0,
    decreases arguments,
{
    if arguments > 0 {
        let head = ActionData::Release(Temporary::Argument((arguments - 1) as usize));
        let tail = releases((arguments - 1) as nat, result);
        lemma_releases_once((arguments - 1) as nat, result, t);
        lemma_times_released_concat(seq![head], tail, t);
        lemma_times_invoked_concat(seq![head], tail);
        lemma_times_released_one(head, t);
    } else if result {
        lemma_times_released_one(ActionData::Release(Temporary::Result), t);
    }
}

/// From the moment the invocation has returned, the run is fixed: the
/// releases, each answered, and then the end.
proof fn lemma_run_of_releases(
    machine: Machine,
    arguments: nat,
    result: bool,
    outcome: Result<Value, ErrorKind>,
)
    ensures
        ({
            let (next, action) = machine.next_release(arguments, result, outcome);
            seq![action] + run(next, released(release_count(arguments, result))) == releases(
                arguments,
                result,
            ) + seq![ActionData::Finish(outcome)]
        }),
    decreases arguments, release_count(arguments, result),
{
    let (next, action) = machine.next_release(arguments, result, outcome);
    let count = release_count(arguments, result);
    let events = released(count);
    if arguments > 0 {
        let fewer = (arguments - 1) as nat;
        assert(events.first() == EventData::Released);
        assert(events.drop_first() =~= released(release_count(fewer, result)));
        assert(next.step(EventData::Released) == next.next_release(fewer, result, outcome));
        lemma_run_of_releases(next, fewer, result, outcome);
        let (after, following) = next.next_release(fewer, result, outcome);
        assert(run(next, events) == seq![following] + run(
            after,
            released(release_count(fewer, result)),
        ));
        assert(seq![action] + (releases(fewer, result) + seq![ActionData::Finish(outcome)])
            =~= releases(arguments, result) + seq![ActionData::Finish(outcome)]);
    } else if result {
        assert(events.first() == EventData::Released);
        assert(events.drop_first() =~= released(0));
        assert(next.step(EventData::Released) == next.next_release(0, false, outcome));
        lemma_run_of_releases(next, 0, false, outcome);
        assert(releases(0, false) =~= Seq::<ActionData>::empty());
        let (after, following) = next.next_release(0, false, outcome);
        assert(run(after, released(0)) =~= Seq::<ActionData>::empty());
        assert(run(next, events) =~= seq![ActionData::Finish(outcome)]);
        assert(seq![action] + run(next, events) =~= releases(arguments, result)
            + seq![ActionData::Finish(outcome)]);
    } else {
        assert(run(next, events) =~= Seq::<ActionData>::empty());
        assert(seq![action] + run(next, events) =~= releases(arguments, result)
            + seq![ActionData::Finish(outcome)]);
    }
}

/// Whether the invocation itself releases the wire value that came with
/// the answer of the foreign object.
pub open spec fn result_released(machine: Machine, answer: EventData) -> bool {
    answer matches EventData::Returned(wire) && machine.releases_result(wire)
}

/// What the operation returns, given the answer of the foreign object.
pub open spec fn outcome_of(machine: Machine, answer: EventData) -> Result<Value, ErrorKind> {
    match answer {
        EventData::Returned(wire) => machine.returned(wire),
        EventData::Failed(failure) => Err(machine.failed(failure)),
        _ => Err(ErrorKind::Other),
    }
}

/// The events of a run in which the name resolves to `dispid`, the foreign
/// object gives `answer`, and every release is confirmed.
pub open spec fn resolved_events(
    machine: Machine,
    params: ParamsData,
    dispid: i32,
    answer: EventData,
) -> Seq<EventData> {
    seq![EventData::Resolved(dispid), answer] + released(
        release_count(params.args.len(), result_released(machine, answer)),
    )
}

/// The run of an operation whose name resolves, from the first answer to
/// the end: one invocation, then the release of every argument temporary
/// from the highest place down, then that of the result where it is owed,
/// then the end. It is the same run whether the invocation succeeds or
/// fails, but for the result.
pub proof fn lemma_run_when_resolved(
    machine: Machine,
    params: ParamsData,
    dispid: i32,
    answer: EventData,
)
    requires
        machine.phase == (PhaseData::Resolving { params }),
        answer is Returned || answer is Failed,
    ensures
        run(machine, resolved_events(machine, params, dispid, answer)) == seq![
            ActionData::Invoke(machine.request(dispid, params)),
        ] + releases(params.args.len(), result_released(machine, answer)) + seq![
            ActionData::Finish(outcome_of(machine, answer)),
        ],
{
    let arguments = params.args.len();
    let result = result_released(machine, answer);
    let outcome = outcome_of(machine, answer);
    let events = resolved_events(machine, params, dispid, answer);
    let confirmations = released(release_count(arguments, result));
    let (invoking, invoke) = machine.step(EventData::Resolved(dispid));
    assert(events.first() == EventData::Resolved(dispid));
    assert(events.drop_first() =~= seq![answer] + confirmations);
    assert((seq![answer] + confirmations).first() == answer);
    assert((seq![answer] + confirmations).drop_first() =~= confirmations);
    assert(invoking.step(answer) == invoking.next_release(arguments, result, outcome));
    lemma_run_of_releases(invoking, arguments, result, outcome);
    let (next, action) = invoking.next_release(arguments, result, outcome);
    assert(run(invoking, seq![answer] + confirmations) == seq![action] + run(next, confirmations));
    assert(run(machine, events) == seq![invoke] + run(invoking, events.drop_first()));
    assert(seq![invoke] + (releases(arguments, result) + seq![ActionData::Finish(outcome)])
        =~= seq![invoke] + releases(arguments, result) + seq![ActionData::Finish(outcome)]);
}

/// Every temporary of an invocation is released exactly once, on success
/// and on failure alike: each argument of the parameter block once, and
/// the returned wire value once where the invocation owes its release.
/// There is exactly one invocation, and it comes before every release.
pub proof fn lemma_temporaries_released_once(
    machine: Machine,
    params: ParamsData,
    dispid: i32,
    answer: EventData,
    t: Temporary,
)
    requires
        machine.phase == (PhaseData::Resolving { params }),
        answer is Returned || answer is Failed,
        params.args.len() <= usize::MAX,
    ensures
        ({
            let actions = run(machine, resolved_events(machine, params, dispid, answer));
            &&& actions.first() is Invoke
            &&& times_invoked(actions) == 1
            &&& times_released(actions, t) == match t {
                Temporary::Argument(place) => if place < params.args.len() {
                    1nat
                } else {
                    0nat
                },
                Temporary::Result => if result_released(machine, answer) {
                    1nat
                } else {
                    0nat
                },
            }
        }),
{
    let arguments = params.args.len();
    let result = result_released(machine, answer);
    let invoke = ActionData::Invoke(machine.request(dispid, params));
    let finish = ActionData::Finish(outcome_of(machine, answer));
    lemma_run_when_resolved(machine, params, dispid, answer);
    lemma_releases_once(arguments, result, t);
    lemma_times_released_one(invoke, t);
    lemma_times_released_one(finish, t);
    lemma_times_released_concat(seq![invoke], releases(arguments, result), t);
    lemma_times_released_concat(seq![invoke] + releases(arguments, result), seq![finish], t);
    lemma_times_invoked_concat(seq![invoke], releases(arguments, result));
    lemma_times_invoked_concat(seq![invoke] + releases(arguments, result), seq![finish]);
}

/// A method call releases the temporary of each of its arguments exactly
/// once, whether the method succeeds or fails.
pub proof fn lemma_call_releases_every_argument(
    object: ObjectRef,
    values: Seq<Value>,
    dispid: i32,
    answer: EventData,
    place: usize,
)
    requires
        answer is Returned || answer is Failed,
        values.len() <= usize::MAX,
        place < values.len(),
    ensures
        call_plan(object, values).phase matches PhaseData::Resolving { params }
            && params.args.len() == values.len() && times_released(
            run(
                call_plan(object, values),
                resolved_events(call_plan(object, values), params, dispid, answer),
            ),
            Temporary::Argument(place),
        ) == 1,
{
    let machine = call_plan(object, values);
    let params = machine.phase->Resolving_params;
    lemma_temporaries_released_once(machine, params, dispid, answer, Temporary::Argument(place));
}

proof fn lemma_finished_ignores(machine: Machine, events: Seq<EventData>, t: Temporary)
    requires
        machine.phase is Finished,
    ensures
        run(machine, events) == Seq::new(events.len(), |i: int| ActionData::Ignored),
        times_invoked(run(machine, events)) == 0,
        times_released(run(machine, events), t) == 0,
    decreases events.len(),
{
    if events.len() == 0 {
        assert(run(machine, events) =~= Seq::new(events.len(), |i: int| ActionData::Ignored));
    } else {
        lemma_finished_ignores(machine, events.drop_first(), t);
        let rest = run(machine, events.drop_first());
        assert(run(machine, events) == seq![ActionData::Ignored] + rest);
        assert(run(machine, events) =~= Seq::new(events.len(), |i: int| ActionData::Ignored));
        lemma_times_released_one(ActionData::Ignored, t);
        lemma_times_released_concat(seq![ActionData::Ignored], rest, t);
        lemma_times_invoked_concat(seq![ActionData::Ignored], rest);
    }
}

/// A name that does not resolve ends the operation with `NameNotFound`,
/// and whatever the driver reports afterwards, nothing is invoked and
/// nothing is released: every later event is ignored.
pub proof fn lemma_unresolved_name_invokes_nothing(
    machine: Machine,
    status: i32,
    later: Seq<EventData>,
    t: Temporary,
)
    requires
        machine.phase is Resolving,
    ensures
        ({
            let actions = run(machine, seq![EventData::ResolveFailed(status)] + later);
            &&& actions == seq![ActionData::Finish(Err(ErrorKind::NameNotFound))] + Seq::new(
                later.len(),
                |i: int| ActionData::Ignored,
            )
            &&& times_invoked(actions) == 0
            &&& times_released(actions, t) == 0
        }),
{
    let events = seq![EventData::ResolveFailed(status)] + later;
    let finish = ActionData::Finish(Err(ErrorKind::NameNotFound));
    let (finished, action) = machine.step(EventData::ResolveFailed(status));
    assert(events.first() == EventData::ResolveFailed(status));
    assert(events.drop_first() =~= later);
    lemma_finished_ignores(finished, later, t);
    lemma_times_released_one(finish, t);
    lemma_times_released_concat(seq![finish], run(finished, later), t);
    lemma_times_invoked_concat(seq![finish], run(finished, later));
}

/// Writing a property marks exactly one argument as named, whatever the
/// value is: the parameter block of the invocation holds the wire form of
/// the value as its only argument and the property assignment as its only
/// argument name, and the flag is that of a property write.
pub proof fn lemma_put_names_one_argument(object: ObjectRef, value: Value, dispid: i32)
    ensures
        put_plan(object, value).step(EventData::Resolved(dispid)).1 matches ActionData::Invoke(
            request,
        ) && {
            &&& request.params.args == seq![value.to_wire()]
            &&& request.params.c_args == 1
            &&& request.params.named_args == seq![DISPID_PROPERTYPUT]
            &&& request.params.c_named_args == 1
            &&& request.flags == DISPATCH_PROPERTYPUT
            &&& request.dispid == dispid
            &&& !request.wants_result
        },
{
}

/// A method call hands its arguments over in reverse: the argument at
/// place `i` of the parameter block is the wire form of the value that
/// stands `i` places before the last. None of them is named.
pub proof fn lemma_call_reverses_arguments(object: ObjectRef, values: Seq<Value>, dispid: i32)
    ensures
        call_plan(object, values).step(EventData::Resolved(dispid)).1 matches ActionData::Invoke(
            request,
        ) && {
            &&& request.params.args.len() == values.len()
            &&& forall|i: int|
                0 <= i < values.len() ==> #[trigger] request.params.args[i] == values[values.len()
                    - 1 - i].to_wire()
            &&& request.params.named_args.len() == 0
            &&& request.params.c_named_args == 0
            &&& request.flags == method_or_get()
            &&& request.dispid == dispid
        },
{
}

} // verus!
