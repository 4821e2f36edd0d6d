//! The invocation protocol: how a property is read or written and how a
//! method is called through the one generic entry point of a foreign
//! object.
//!
//! Nothing here calls the foreign object. An operation starts as an
//! [`Invocation`] together with the first [`Action`] for the driver. The
//! driver performs the action, reports what happened as an [`Event`] to
//! [`Invocation::step`], and gets the next action, until the action is
//! [`Action::Finish`].

use vstd::prelude::*;
use crate::error::{Error, ErrorKind, ExceptionInfo};
use crate::variant::{decode, decode_retains, outcome, Value, Variant};
use crate::wire::{ObjectRef, WireData, WireValue};

verus! {

/// The interface identifier that every lookup and invocation passes: the
/// one made of zeroes, which stands for "no interface".
pub const IID_NULL: u128 = 0;

/// The locale that every lookup and invocation passes: the user's default.
pub const DEFAULT_LOCALE_ID: u32 = 0x0400;

/// Invocation flag: the member is called as a method.
pub const DISPATCH_METHOD: u16 = 1;

/// Invocation flag: the member is read as a property.
pub const DISPATCH_PROPERTYGET: u16 = 2;

/// Invocation flag: the member is written as a property.
pub const DISPATCH_PROPERTYPUT: u16 = 4;

/// The identifier of the named argument that carries the new value of a
/// property.
pub const DISPID_PROPERTYPUT: i32 = -3;

/// The flags of an invocation that reads a property or calls a method:
/// `DISPATCH_METHOD` and `DISPATCH_PROPERTYGET` together.
pub open spec fn method_or_get() -> u16 {
    3
}

/// What is handed to the name lookup primitive of an object.
#[derive(Debug, PartialEq, Eq)]
pub struct NameLookup {
    pub object: ObjectRef,
    pub riid: u128,
    pub name: String,
    /// How many names are looked up: always one.
    pub count: u32,
    pub lcid: u32,
}

/// The mathematical value of a [`NameLookup`].
pub ghost struct LookupData {
    pub object: ObjectRef,
    pub riid: u128,
    pub name: Seq<char>,
    pub count: u32,
    pub lcid: u32,
}

impl View for NameLookup {
    type V = LookupData;

    open spec fn view(&self) -> LookupData {
        LookupData {
            object: self.object,
            riid: self.riid,
            name: self.name@,
            count: self.count,
            lcid: self.lcid,
        }
    }
}

/// The parameter block of an invocation. The arguments stand in the order
/// in which the foreign object reads them, which is the last logical
/// argument first.
#[derive(Debug, PartialEq, Eq)]
pub struct DispParams {
    pub args: Vec<WireValue>,
    pub named_args: Vec<i32>,
    pub c_args: u32,
    pub c_named_args: u32,
}

/// The mathematical value of a [`DispParams`].
pub ghost struct ParamsData {
    pub args: Seq<WireData>,
    pub named_args: Seq<i32>,
    pub c_args: u32,
    pub c_named_args: u32,
}

/// The values of a sequence of wire values.
pub open spec fn wire_views(wires: Seq<WireValue>) -> Seq<WireData> {
    wires.map_values(|w: WireValue| w@)
}

/// The values of a sequence of dynamic values.
pub open spec fn values_of(variants: Seq<Variant>) -> Seq<Value> {
    variants.map_values(|v: Variant| v@)
}

impl View for DispParams {
    type V = ParamsData;

    open spec fn view(&self) -> ParamsData {
        ParamsData {
            args: wire_views(self.args@),
            named_args: self.named_args@,
            c_args: self.c_args,
            c_named_args: self.c_named_args,
        }
    }
}

/// What is handed to the generic invocation primitive of an object.
#[derive(Debug, PartialEq, Eq)]
pub struct InvokeRequest {
    pub object: ObjectRef,
    pub dispid: i32,
    pub riid: u128,
    pub lcid: u32,
    pub flags: u16,
    pub params: DispParams,
    /// Whether the object is given a place to put a result.
    pub wants_result: bool,
    /// Whether the object is given a place to describe an exception.
    pub wants_exception: bool,
}

/// The mathematical value of an [`InvokeRequest`].
pub ghost struct RequestData {
    pub object: ObjectRef,
    pub dispid: i32,
    pub riid: u128,
    pub lcid: u32,
    pub flags: u16,
    pub params: ParamsData,
    pub wants_result: bool,
    pub wants_exception: bool,
}

impl View for InvokeRequest {
    type V = RequestData;

    open spec fn view(&self) -> RequestData {
        RequestData {
            object: self.object,
            dispid: self.dispid,
            riid: self.riid,
            lcid: self.lcid,
            flags: self.flags,
            params: self.params@,
            wants_result: self.wants_result,
            wants_exception: self.wants_exception,
        }
    }
}

/// A failed invocation, as the foreign object reported it.
#[derive(Clone, Copy, Debug, PartialEq, Eq, Structural)]
pub struct Failure {
    pub status: i32,
    pub exception: Option<ExceptionInfo>,
}

/// A wire value that exists only for the sake of one invocation.
#[derive(Clone, Copy, Debug, PartialEq, Eq, Structural)]
pub enum Temporary {
    /// The argument at this place of the parameter block.
    Argument(usize),
    /// The wire value that the invocation returned.
    Result,
}

/// What the driver reports after it has performed an action.
#[derive(Debug, PartialEq, Eq)]
pub enum Event {
    /// The lookup found the member: its dispatch identifier.
    Resolved(i32),
    /// The lookup failed: its status.
    ResolveFailed(i32),
    /// The invocation succeeded: the wire value it put in the place for the
    /// result, or the empty one where it put none or had no place.
    Returned(WireValue),
    /// The invocation failed.
    Failed(Failure),
    /// The temporary has been released.
    Released,
}

/// The mathematical value of an [`Event`].
pub ghost enum EventData {
    Resolved(i32),
    ResolveFailed(i32),
    Returned(WireData),
    Failed(Failure),
    Released,
}

impl View for Event {
    type V = EventData;

    open spec fn view(&self) -> EventData {
        match *self {
            Event::Resolved(id) => EventData::Resolved(id),
            Event::ResolveFailed(status) => EventData::ResolveFailed(status),
            Event::Returned(w) => EventData::Returned(w@),
            Event::Failed(f) => EventData::Failed(f),
            Event::Released => EventData::Released,
        }
    }
}

/// What the driver has to do next.
#[derive(Debug, PartialEq, Eq)]
pub enum Action {
    /// Look the member's name up.
    Resolve(NameLookup),
    /// Make a tagged union for each argument and invoke the member.
    Invoke(InvokeRequest),
    /// Release a temporary of this invocation.
    Release(Temporary),
    /// Nothing is left to do: this is what the operation returns.
    Finish(Result<Variant, Error>),
    /// The event answered no action that was waiting for an answer; it
    /// changed nothing.
    Ignored,
}

/// The mathematical value of an [`Action`].
pub ghost enum ActionData {
    Resolve(LookupData),
    Invoke(RequestData),
    Release(Temporary),
    Finish(Result<Value, ErrorKind>),
    Ignored,
}

impl View for Action {
    type V = ActionData;

    open spec fn view(&self) -> ActionData {
        match *self {
            Action::Resolve(lookup) => ActionData::Resolve(lookup@),
            Action::Invoke(request) => ActionData::Invoke(request@),
            Action::Release(t) => ActionData::Release(t),
            Action::Finish(r) => ActionData::Finish(outcome(r)),
            Action::Ignored => ActionData::Ignored,
        }
    }
}

/// Where an invocation stands.
#[derive(Debug, PartialEq, Eq)]
enum Phase {
    /// The name lookup is out. The parameter block waits for its answer.
    Resolving { params: DispParams },
    /// The invocation is out, with this many argument temporaries.
    Invoking { temporaries: usize },
    /// A release is out. After it, this many argument temporaries and
    /// perhaps the result are still to be released, and then `outcome` is
    /// what the operation returns.
    Releasing { arguments: usize, result: bool, outcome: Result<Variant, Error> },
    /// The operation has returned.
    Finished,
}

/// The state of one property access or method call.
#[derive(Debug, PartialEq, Eq)]
pub struct Invocation {
    object: ObjectRef,
    flags: u16,
    wants_result: bool,
    wants_exception: bool,
    phase: Phase,
}

impl Invocation {
    #[verifier::type_invariant]
    spec fn inv(self) -> bool {
        self.phase matches Phase::Releasing { outcome: Err(e), .. } ==> e.message@ == e.kind.text()
    }
}

/// The mathematical value of where an invocation stands.
pub ghost enum PhaseData {
    Resolving { params: ParamsData },
    Invoking { temporaries: nat },
    Releasing { arguments: nat, result: bool, outcome: Result<Value, ErrorKind> },
    Finished,
}

/// The mathematical value of an [`Invocation`].
pub ghost struct Machine {
    pub object: ObjectRef,
    pub flags: u16,
    pub wants_result: bool,
    pub wants_exception: bool,
    pub phase: PhaseData,
}

impl View for Invocation {
    type V = Machine;

    closed spec fn view(&self) -> Machine {
        Machine {
            object: self.object,
            flags: self.flags,
            wants_result: self.wants_result,
            wants_exception: self.wants_exception,
            phase: match self.phase {
                Phase::Resolving { params } => PhaseData::Resolving { params: params@ },
                Phase::Invoking { temporaries } => PhaseData::Invoking {
                    temporaries: temporaries as nat,
                },
                Phase::Releasing { arguments, result, outcome: o } => PhaseData::Releasing {
                    arguments: arguments as nat,
                    result,
                    outcome: outcome(o),
                },
                Phase::Finished => PhaseData::Finished,
            },
        }
    }
}

/// The lookup that every operation on `object` starts with: the one name,
/// with the null interface identifier and the default locale.
pub open spec fn lookup_of(object: ObjectRef, name: Seq<char>) -> LookupData {
    LookupData { object, riid: IID_NULL, name, count: 1, lcid: DEFAULT_LOCALE_ID }
}

/// The arguments of a method call in the order of the parameter block: the
/// wire forms of the values, the last value first.
pub open spec fn call_args(values: Seq<Value>) -> Seq<WireData> {
    values.map_values(|v: Value| v.to_wire()).reverse()
}

/// How reading a property starts: no arguments, flags for a method or a
/// property read, a place for the result.
pub open spec fn get_plan(object: ObjectRef) -> Machine {
    Machine {
        object,
        flags: method_or_get(),
        wants_result: true,
        wants_exception: false,
        phase: PhaseData::Resolving {
            params: ParamsData {
                args: Seq::empty(),
                named_args: Seq::empty(),
                c_args: 0,
                c_named_args: 0,
            },
        },
    }
}

/// How writing a property starts: the new value as the one argument, named
/// as the property assignment, the flag for a property write, no place for
/// a result.
pub open spec fn put_plan(object: ObjectRef, value: Value) -> Machine {
    Machine {
        object,
        flags: DISPATCH_PROPERTYPUT,
        wants_result: false,
        wants_exception: false,
        phase: PhaseData::Resolving {
            params: ParamsData {
                args: seq![value.to_wire()],
                named_args: seq![DISPID_PROPERTYPUT],
                c_args: 1,
                c_named_args: 1,
            },
        },
    }
}

/// How a method call starts: the arguments in reverse, none of them named,
/// flags for a method or a property read, places for a result and for an
/// exception.
pub open spec fn call_plan(object: ObjectRef, values: Seq<Value>) -> Machine {
    Machine {
        object,
        flags: method_or_get(),
        wants_result: true,
        wants_exception: true,
        phase: PhaseData::Resolving {
            params: ParamsData {
                args: call_args(values),
                named_args: Seq::empty(),
                c_args: values.len() as u32,
                c_named_args: 0,
            },
        },
    }
}

impl Machine {
    /// The request that goes out once the name is resolved to `dispid`.
    pub open spec fn request(self, dispid: i32, params: ParamsData) -> RequestData {
        RequestData {
            object: self.object,
            dispid,
            riid: IID_NULL,
            lcid: DEFAULT_LOCALE_ID,
            flags: self.flags,
            params,
            wants_result: self.wants_result,
            wants_exception: self.wants_exception,
        }
    }

    /// What a successful invocation that returned `wire` comes to. Where
    /// there was no place for a result, it is the empty value.
    pub open spec fn returned(self, wire: WireData) -> Result<Value, ErrorKind> {
        if self.wants_result {
            decode(wire)
        } else {
            Ok(Value::Empty)
        }
    }

    /// Whether the wire value that an invocation returned has to be
    /// released by the invocation itself: it has, unless there was no
    /// place for a result or the decoded value keeps the wire value alive.
    pub open spec fn releases_result(self, wire: WireData) -> bool {
        self.wants_result && !decode_retains(wire)
    }

    /// What a failed invocation comes to: the status, and the exception
    /// where there was a place for one.
    pub open spec fn failed(self, failure: Failure) -> ErrorKind {
        ErrorKind::InvocationFailed {
            status: failure.status,
            exception_info: if self.wants_exception {
                failure.exception
            } else {
                None
            },
        }
    }

    /// What comes after the invocation has returned, or after a release:
    /// the release of the argument at the highest place that is left, then
    /// that of the result where it is owed, and when nothing is left, the
    /// end.
    pub open spec fn next_release(
        self,
        arguments: nat,
        result: bool,
        outcome: Result<Value, ErrorKind>,
    ) -> (Machine, ActionData) {
        if arguments > 0 {
            (
                Machine {
                    phase: PhaseData::Releasing {
                        arguments: (arguments - 1) as nat,
                        result,
                        outcome,
                    },
                    ..self
                },
                ActionData::Release(Temporary::Argument((arguments - 1) as usize)),
            )
        } else if result {
            (
                Machine {
                    phase: PhaseData::Releasing { arguments: 0, result: false, outcome },
                    ..self
                },
                ActionData::Release(Temporary::Result),
            )
        } else {
            (Machine { phase: PhaseData::Finished, ..self }, ActionData::Finish(outcome))
        }
    }

    /// The next state and the next action, given the state and what the
    /// driver reports.
    ///
    /// A name that does not resolve ends the operation with `NameNotFound`
    /// before anything is invoked. Once the invocation has returned, be it
    /// with a result or with a failure, every temporary is released in
    /// turn, and only then the operation ends. An event that does not
    /// answer the action that is out changes nothing.
    pub open spec fn step(self, event: EventData) -> (Machine, ActionData) {
        match (self.phase, event) {
            (PhaseData::Resolving { params }, EventData::Resolved(dispid)) => (
                Machine { phase: PhaseData::Invoking { temporaries: params.args.len() }, ..self },
                ActionData::Invoke(self.request(dispid, params)),
            ),
            (PhaseData::Resolving { .. }, EventData::ResolveFailed(_)) => (
                Machine { phase: PhaseData::Finished, ..self },
                ActionData::Finish(Err(ErrorKind::NameNotFound)),
            ),
            (PhaseData::Invoking { temporaries }, EventData::Returned(wire)) => self.next_release(
                temporaries,
                self.releases_result(wire),
                self.returned(wire),
            ),
            (PhaseData::Invoking { temporaries }, EventData::Failed(failure)) => self.next_release(
                temporaries,
                false,
                Err(self.failed(failure)),
            ),
            (
                PhaseData::Releasing { arguments, result, outcome },
                EventData::Released,
            ) => self.next_release(arguments, result, outcome),
            _ => (self, ActionData::Ignored),
        }
    }
}

/// Makes the request for the name lookup of `name` on `dispatch`.
pub fn get_ids_of_names(dispatch: ObjectRef, name: &str) -> (lookup: NameLookup)
    ensures
        lookup@ == lookup_of(dispatch, name@),
{
    NameLookup {
        object: dispatch,
        riid: IID_NULL,
        name: name.to_owned(),
        count: 1,
        lcid: DEFAULT_LOCALE_ID,
    }
}

/// Starts reading the property `name` of `dispatch`.
pub fn get_property(dispatch: ObjectRef, name: &str) -> (start: (Invocation, Action))
    ensures
        start.0@ == get_plan(dispatch),
        start.1@ == ActionData::Resolve(lookup_of(dispatch, name@)),
{
    let flags: u16 = DISPATCH_METHOD | DISPATCH_PROPERTYGET;
    assert(flags == 3) by (bit_vector)
        requires
            flags == 1u16 | 2u16,
    ;
    let params = DispParams {
        args: Vec::new(),
        named_args: Vec::new(),
        c_args: 0,
        c_named_args: 0,
    };
    assert(params@.args =~= Seq::empty());
    let invocation = Invocation {
        object: dispatch,
        flags,
        wants_result: true,
        wants_exception: false,
        phase: Phase::Resolving { params },
    };
    (invocation, Action::Resolve(get_ids_of_names(dispatch, name)))
}

/// Starts writing `value` to the property `name` of `dispatch`.
///
/// Whatever the type of `value`, the parameter block holds its wire form as
/// the only argument and names that argument as the property assignment.
pub fn put_property(dispatch: ObjectRef, name: &str, value: &Variant) -> (start: (
    Invocation,
    Action,
))
    ensures
        start.0@ == put_plan(dispatch, value@),
        start.1@ == ActionData::Resolve(lookup_of(dispatch, name@)),
{
    let mut args: Vec<WireValue> = Vec::new();
    args.push(value.to_variant());
    let mut named_args: Vec<i32> = Vec::new();
    named_args.push(DISPID_PROPERTYPUT);
    let params = DispParams { args, named_args, c_args: 1, c_named_args: 1 };
    assert(params@.args =~= seq![value@.to_wire()]);
    assert(params@.named_args =~= seq![DISPID_PROPERTYPUT]);
    let invocation = Invocation {
        object: dispatch,
        flags: DISPATCH_PROPERTYPUT,
        wants_result: false,
        wants_exception: false,
        phase: Phase::Resolving { params },
    };
    (invocation, Action::Resolve(get_ids_of_names(dispatch, name)))
}

/// Starts calling the method `name` of `dispatch` with `values`.
///
/// The parameter block holds the wire forms of the values in reverse: the
/// last value stands first.
pub fn call_method(dispatch: ObjectRef, name: &str, values: &[Variant]) -> (start: (
    Invocation,
    Action,
))
    requires
        values@.len() <= u32::MAX,
    ensures
        start.0@ == call_plan(dispatch, values_of(values@)),
        start.1@ == ActionData::Resolve(lookup_of(dispatch, name@)),
{
    let flags: u16 = DISPATCH_METHOD | DISPATCH_PROPERTYGET;
    assert(flags == 3) by (bit_vector)
        requires
            flags == 1u16 | 2u16,
    ;
    let args_len: usize = values.len();
    let mut args: Vec<WireValue> = Vec::new();
    let mut i: usize = 0;
    while i < args_len
        invariant
            args_len == values@.len(),
            i <= args_len,
            args@.len() == i,
            forall|j: int| 0 <= j < i ==> (#[trigger] args@[j])@ == values@[args_len - 1 - j]@.to_wire(),
        decreases args_len - i,
    {
        let v: &Variant = &values[args_len - 1 - i];
        args.push(v.to_variant());
        i = i + 1;
    }
    let params = DispParams {
        args,
        named_args: Vec::new(),
        c_args: args_len as u32,
        c_named_args: 0,
    };
    assert(params@.args =~= call_args(values_of(values@)));
    assert(params@.named_args =~= Seq::empty());
    let invocation = Invocation {
        object: dispatch,
        flags,
        wants_result: true,
        wants_exception: true,
        phase: Phase::Resolving { params },
    };
    (invocation, Action::Resolve(get_ids_of_names(dispatch, name)))
}

impl Invocation {
    /// Whether the operation has returned.
    pub fn is_finished(&self) -> (b: bool)
        ensures
            b == (self@.phase is Finished),
    {
        match self.phase {
            Phase::Finished => true,
            _ => false,
        }
    }

    /// Asks for the next release that is owed, or ends the operation.
    fn next_release(
        self,
        arguments: usize,
        result: bool,
        outcome: Result<Variant, Error>,
    ) -> (next: (Invocation, Action))
        requires
            outcome matches Err(e) ==> e.message@ == e.kind.text(),
        ensures
            (next.0@, next.1@) == self@.next_release(
                arguments as nat,
                result,
                crate::variant::outcome(outcome),
            ),
            next.1 matches Action::Finish(Err(e)) ==> e.message@ == e.kind.text(),
    {
        let Invocation { object, flags, wants_result, wants_exception, phase: _ } = self;
        if arguments > 0 {
            (
                Invocation {
                    object,
                    flags,
                    wants_result,
                    wants_exception,
                    phase: Phase::Releasing { arguments: arguments - 1, result, outcome },
                },
                Action::Release(Temporary::Argument(arguments - 1)),
            )
        } else if result {
            (
                Invocation {
                    object,
                    flags,
                    wants_result,
                    wants_exception,
                    phase: Phase::Releasing { arguments: 0, result: false, outcome },
                },
                Action::Release(Temporary::Result),
            )
        } else {
            (
                Invocation { object, flags, wants_result, wants_exception, phase: Phase::Finished },
                Action::Finish(outcome),
            )
        }
    }

    /// Takes what the driver reports and says what it has to do next.
    pub fn step(self, event: Event) -> (next: (Invocation, Action))
        ensures
            (next.0@, next.1@) == self@.step(event@),
            next.1 matches Action::Finish(Err(e)) ==> e.message@ == e.kind.text(),
    {
        proof {
            use_type_invariant(&self);
        }
        let Invocation { object, flags, wants_result, wants_exception, phase } = self;
        match phase {
            Phase::Resolving { params } => match event {
                Event::Resolved(dispid) => {
                    let temporaries = params.args.len();
                    let request = InvokeRequest {
                        object,
                        dispid,
                        riid: IID_NULL,
                        lcid: DEFAULT_LOCALE_ID,
                        flags,
                        params,
                        wants_result,
                        wants_exception,
                    };
                    (
                        Invocation {
                            object,
                            flags,
                            wants_result,
                            wants_exception,
                            phase: Phase::Invoking { temporaries },
                        },
                        Action::Invoke(request),
                    )
                },
                Event::ResolveFailed(_) => (
                    Invocation {
                        object,
                        flags,
                        wants_result,
                        wants_exception,
                        phase: Phase::Finished,
                    },
                    Action::Finish(Err(Error::new(ErrorKind::NameNotFound))),
                ),
                _ => (
                    Invocation {
                        object,
                        flags,
                        wants_result,
                        wants_exception,
                        phase: Phase::Resolving { params },
                    },
                    Action::Ignored,
                ),
            },
            Phase::Invoking { temporaries } => {
                let current = Invocation {
                    object,
                    flags,
                    wants_result,
                    wants_exception,
                    phase: Phase::Invoking { temporaries },
                };
                match event {
                    Event::Returned(wire) => {
                        if wants_result {
                            let result = !wire.is_dispatch();
                            let decoded = Variant::from_variant(wire);
                            current.next_release(temporaries, result, decoded)
                        } else {
                            current.next_release(
                                temporaries,
                                false,
                                Ok(Variant::empty()),
                            )
                        }
                    },
                    Event::Failed(failure) => {
                        let exception_info = if wants_exception {
                            failure.exception
                        } else {
                            None
                        };
                        let kind = ErrorKind::InvocationFailed {
                            status: failure.status,
                            exception_info,
                        };
                        current.next_release(temporaries, false, Err(Error::new(kind)))
                    },
                    _ => (current, Action::Ignored),
                }
            },
            Phase::Releasing { arguments, result, outcome } => match event {
                Event::Released => {
                    let current = Invocation {
                        object,
                        flags,
                        wants_result,
                        wants_exception,
                        phase: Phase::Finished,
                    };
                    current.next_release(arguments, result, outcome)
                },
                _ => (
                    Invocation {
                        object,
                        flags,
                        wants_result,
                        wants_exception,
                        phase: Phase::Releasing { arguments, result, outcome },
                    },
                    Action::Ignored,
                ),
            },
            Phase::Finished => (
                Invocation { object, flags, wants_result, wants_exception, phase: Phase::Finished },
                Action::Ignored,
            ),
        }
    }
}

} // verus!
