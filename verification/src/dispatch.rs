//! The object handle: a dynamic value's way to an automation object.
//!
//! A handle either owns a foreign object reference outright, or holds the
//! wire value that a call returned and borrows the reference inside it.
//! Either way exactly one thing has to be released when the handle is given
//! up, and the handle says which.

use vstd::prelude::*;
use crate::invoke::{
    call_method, call_plan, get_plan, get_property, lookup_of, put_plan, put_property, values_of,
    Action, ActionData, Invocation,
};
use crate::variant::Variant;
use crate::wire::{ObjectRef, WireData, WireValue};

verus! {

/// A handle over a foreign object reference.
#[derive(Debug, PartialEq, Eq)]
pub struct Dispatch {
    dispatch: Option<ObjectRef>,
    variant: Option<WireValue>,
}

/// The mathematical value of a [`Dispatch`].
pub ghost enum Handle {
    /// The handle is the sole owner of the reference.
    Owned(ObjectRef),
    /// The handle holds the wire value that owns the reference.
    Borrowed(ObjectRef),
}

impl Handle {
    /// The object reference that invocations through the handle go to.
    pub open spec fn object(self) -> ObjectRef {
        match self {
            Handle::Owned(r) => r,
            Handle::Borrowed(r) => r,
        }
    }

    /// The reference that has to be released when the handle is given up.
    pub open spec fn owned(self) -> Option<ObjectRef> {
        match self {
            Handle::Owned(r) => Some(r),
            Handle::Borrowed(_) => None,
        }
    }

    /// The wire value that has to be released when the handle is given up.
    pub open spec fn retained(self) -> Option<WireData> {
        match self {
            Handle::Owned(_) => None,
            Handle::Borrowed(r) => Some(WireData::Dispatch(r)),
        }
    }
}

impl Dispatch {
    #[verifier::type_invariant]
    spec fn inv(self) -> bool {
        &&& self.dispatch is Some <==> self.variant is None
        &&& self.variant matches Some(w) ==> w is Dispatch
    }
}

impl View for Dispatch {
    type V = Handle;

    closed spec fn view(&self) -> Handle {
        match (self.dispatch, self.variant) {
            (Some(r), _) => Handle::Owned(r),
            (None, Some(WireValue::Dispatch(r))) => Handle::Borrowed(r),
            (None, _) => Handle::Owned(ObjectRef { id: 0 }),
        }
    }
}

impl Dispatch {
    /// A handle that owns `dispatch`.
    pub(crate) fn new_with_dispatch(dispatch: ObjectRef) -> (handle: Dispatch)
        ensures
            handle@ == Handle::Owned(dispatch),
    {
        Dispatch { dispatch: Some(dispatch), variant: None }
    }

    /// A handle that holds `variant` and borrows the reference inside it.
    pub(crate) fn new_with_variant(variant: WireValue) -> (handle: Dispatch)
        requires
            variant is Dispatch,
        ensures
            variant@ == WireData::Dispatch(handle@.object()),
            handle@ is Borrowed,
    {
        Dispatch { dispatch: None, variant: Some(variant) }
    }

    /// The object reference that invocations go to: the owned one, or the
    /// one inside the wire value that the handle holds.
    pub fn get_dispatch(&self) -> (object: ObjectRef)
        ensures
            object == self@.object(),
    {
        proof {
            use_type_invariant(self);
        }
        match self.dispatch {
            Some(r) => r,
            None => match &self.variant {
                Some(WireValue::Dispatch(r)) => *r,
                _ => ObjectRef { id: 0 },
            },
        }
    }

    /// Starts reading the property `name` of the object.
    pub fn get_property(&self, name: &str) -> (start: (Invocation, Action))
        ensures
            start.0@ == get_plan(self@.object()),
            start.1@ == ActionData::Resolve(lookup_of(self@.object(), name@)),
    {
        let dispatch = self.get_dispatch();
        get_property(dispatch, name)
    }

    /// Starts writing `value` to the property `name` of the object.
    pub fn put_property(&self, name: &str, value: &Variant) -> (start: (Invocation, Action))
        ensures
            start.0@ == put_plan(self@.object(), value@),
            start.1@ == ActionData::Resolve(lookup_of(self@.object(), name@)),
    {
        let dispatch = self.get_dispatch();
        put_property(dispatch, name, value)
    }

    /// Starts calling the method `name` of the object with `values`.
    pub fn call_method(&self, name: &str, values: &[Variant]) -> (start: (Invocation, Action))
        requires
            values@.len() <= u32::MAX,
        ensures
            start.0@ == call_plan(self@.object(), values_of(values@)),
            start.1@ == ActionData::Resolve(lookup_of(self@.object(), name@)),
    {
        let dispatch = self.get_dispatch();
        call_method(dispatch, name, values)
    }

    /// Gives the handle up. What comes back is what the caller has to
    /// release: the reference that the handle owned, or the wire value
    /// that it held. It is always exactly one of the two.
    pub fn discard(self) -> (owed: (Option<ObjectRef>, Option<WireValue>))
        ensures
            owed.0 == self@.owned(),
            owed.1 is Some <==> self@.retained() is Some,
            owed.1 matches Some(w) ==> self@.retained() == Some(w@),
            owed.0 is Some <==> owed.1 is None,
    {
        proof {
            use_type_invariant(&self);
        }
        (self.dispatch, self.variant)
    }
}

} // verus!
