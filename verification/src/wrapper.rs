//! Wrapper types of the sealed-value state machine: the generic sealed
//! carrier, whose values can only come out of a successful validation
//! pass, and a thin wrapper for foreign values outside the caller's
//! control.

use vstd::prelude::*;

use crate::errors::ValidationErrors;
use crate::Sealable;
use crate::Validator;

verus! {

/// The opaque sealed carrier: a single-field container whose payload is
/// guaranteed to have passed validation.  Its only construction paths are
/// a successful run of [`Sealed::new`] and the explicit
/// [`Sealed::new_unchecked`], which demands a proof of validity from its
/// caller.  The payload is reachable read-only; mutation requires
/// unwrapping, mutating the raw form, and re-validating.
pub struct Sealed<T: Validator>(T);

impl<T: Validator> View for Sealed<T> {
    type V = T;

    closed spec fn view(&self) -> T {
        self.0
    }
}

impl<T: Validator> Sealed<T> {
    #[verifier::type_invariant]
    spec fn payload_valid(self) -> bool {
        self.0.valid()
    }

    /// Runs the validation pass and, on success, wraps the unchanged raw
    /// value.
    pub fn new(raw: T) -> (r: Result<Sealed<T>, ValidationErrors>)
        ensures
            r is Ok <==> raw.valid(),
            r is Ok ==> r->Ok_0@ == raw,
            r is Err ==> r->Err_0@.len() > 0,
    {
        match raw.check() {
            Ok(()) => Ok(Sealed(raw)),
            Err(errors) => Err(errors),
        }
    }

    /// The trusted construction path for call sites that already hold a
    /// proof of validity; it skips the validation pass.
    pub fn new_unchecked(raw: T) -> (r: Sealed<T>)
        requires
            raw.valid(),
        ensures
            r@ == raw,
    {
        Sealed(raw)
    }

    /// Read-only access to the validated payload.
    pub fn get(&self) -> (r: &T)
        ensures
            r == self@,
            r.valid(),
    {
        proof {
            use_type_invariant(self);
        }
        &self.0
    }

    /// Unwraps the carrier; the payload is known to be valid.
    pub fn into_inner(self) -> (r: T)
        ensures
            r == self@,
            r.valid(),
    {
        proof {
            use_type_invariant(&self);
        }
        self.0
    }
}

/// A type whose `==` operator is known to Verus to decide value equality,
/// such as the primitive integers and `bool`.
pub trait ExactEq: Sized + PartialEq + vstd::std_specs::cmp::PartialEqSpec {
    /// `==` on this type agrees with mathematical equality.
    proof fn exact_eq()
        ensures
            Self::obeys_eq_spec(),
            forall|a: Self, b: Self| #[trigger] a.eq_spec(&b) <==> a == b,
    ;
}

/// A thin wrapper for values of types outside the caller's control: such
/// a value is treated as always valid and seals to itself.  The wrapped
/// value is freely accessible: unlike the sealed carrier, this wrapper
/// guards no invariant.
#[derive(Debug, PartialEq, Eq, Hash, PartialOrd, Ord, Clone, Copy)]
pub struct IntoNestedWrapper<T>(pub T);

impl<T> IntoNestedWrapper<T> {
    /// Wraps a foreign value.
    pub fn wrap(inner: T) -> (r: IntoNestedWrapper<T>)
        ensures
            r == IntoNestedWrapper(inner),
    {
        IntoNestedWrapper(inner)
    }

    /// Read-only access to the wrapped value.
    pub fn get(&self) -> (r: &T)
        ensures
            r == self.0,
    {
        &self.0
    }

    /// Unwraps the wrapped value.
    pub fn into_inner(self) -> (r: T)
        ensures
            r == self.0,
    {
        self.0
    }
}

impl<T> From<T> for IntoNestedWrapper<T> {
    fn from(inner: T) -> (r: IntoNestedWrapper<T>) {
        IntoNestedWrapper(inner)
    }
}

impl<T> vstd::std_specs::convert::FromSpecImpl<T> for IntoNestedWrapper<T> {
    open spec fn obeys_from_spec() -> bool {
        true
    }

    open spec fn from_spec(inner: T) -> IntoNestedWrapper<T> {
        IntoNestedWrapper(inner)
    }
}

impl<T: ExactEq> Sealable for IntoNestedWrapper<T> {
    type Target = IntoNestedWrapper<T>;

    type Model = IntoNestedWrapper<T>;

    open spec fn model(self) -> IntoNestedWrapper<T> {
        self
    }

    open spec fn sealed_model(sealed: IntoNestedWrapper<T>) -> IntoNestedWrapper<T> {
        sealed
    }

    open spec fn is_valid(self) -> bool {
        true
    }

    fn seal(self) -> (r: Result<IntoNestedWrapper<T>, ValidationErrors>) {
        Ok(self)
    }

    fn open(sealed: IntoNestedWrapper<T>) -> (r: IntoNestedWrapper<T>) {
        sealed
    }

    fn partial_eq(&self, other: &IntoNestedWrapper<T>) -> (r: bool) {
        proof {
            T::exact_eq();
        }
        self.0.eq(&other.0)
    }
}

impl ExactEq for bool {
    proof fn exact_eq() {
    }
}

impl ExactEq for u8 {
    proof fn exact_eq() {
    }
}

impl ExactEq for u16 {
    proof fn exact_eq() {
    }
}

impl ExactEq for u32 {
    proof fn exact_eq() {
    }
}

impl ExactEq for u64 {
    proof fn exact_eq() {
    }
}

impl ExactEq for u128 {
    proof fn exact_eq() {
    }
}

impl ExactEq for i8 {
    proof fn exact_eq() {
    }
}

impl ExactEq for i16 {
    proof fn exact_eq() {
    }
}

impl ExactEq for i32 {
    proof fn exact_eq() {
    }
}

impl ExactEq for i64 {
    proof fn exact_eq() {
    }
}

impl ExactEq for i128 {
    proof fn exact_eq() {
    }
}

impl ExactEq for usize {
    proof fn exact_eq() {
    }
}

impl ExactEq for isize {
    proof fn exact_eq() {
    }
}

} // verus!
