//! A two-phase "raw value, then validated value" transformation library.
//!
//! An unchecked raw value is *sealed* into a validated form through a
//! validation pass that accumulates every violation instead of stopping at
//! the first one, tagging each failure with the dotted field path that
//! produced it.  A validated value can always be *opened* back into its raw
//! form, and the two forms can be compared structurally without converting
//! either side.

use vstd::prelude::*;

mod errors;
mod leaves;
mod nested;
mod opaque;
mod results;
mod stdimpl;
mod wrapper;

pub use errors::dec_str;
pub use errors::grouped;
pub use errors::lemma_combine_with_monoid;
pub use errors::summary_text;
pub use errors::prefixed_error;
pub use errors::prefixed_errors;
pub use errors::prefixed_segment;
pub use errors::ValidationError;
pub use errors::ValidationErrorView;
pub use errors::ValidationErrors;
pub use leaves::lemma_leaf_totality;
pub use nested::lemma_numbers_round_trip;
pub use nested::lemma_wrapper_error_paths;
pub use nested::numbers_error_views;
pub use nested::numbers_result_errors;
pub use nested::wrapper_numbers_errors;
pub use nested::AlwaysValid;
pub use nested::DirectionInner;
pub use nested::DirectionRaw;
pub use nested::NumbersInner;
pub use nested::NumbersRaw;
pub use nested::NumbersResult;
pub use nested::WrapperInner;
pub use nested::WrapperRaw;
pub use opaque::Timestamp;
pub use results::outcome_errors;
pub use results::ValidationResultExtensions;
pub use stdimpl::lemma_container_propagation;
pub use stdimpl::lemma_map_partial_eq_meaning;
pub use stdimpl::SealableKey;
pub use wrapper::ExactEq;
pub use wrapper::IntoNestedWrapper;
pub use wrapper::Sealed;

verus! {

/// The core transformation contract: how a raw type validates itself into
/// its sealed counterpart and how the sealed form is read back.
///
/// Both forms share one mathematical model (`Model`): sealing preserves the
/// model of a valid value, opening always recovers it, and `partial_eq`
/// decides model equality between a raw and a sealed value without
/// converting either side.
pub trait Sealable: Sized {
    /// The validated counterpart of this raw type.
    type Target;

    /// The mathematical model shared by the raw and the sealed form.
    type Model;

    /// The model of a raw value.
    spec fn model(self) -> Self::Model;

    /// The model of a sealed value.
    spec fn sealed_model(sealed: Self::Target) -> Self::Model;

    /// Whether this raw value passes validation.
    spec fn is_valid(self) -> bool;

    /// The fallible forward transformation.  It succeeds exactly on valid
    /// values, never loses the model of a valid value, and never returns an
    /// empty failure collection.
    fn seal(self) -> (r: Result<Self::Target, ValidationErrors>)
        ensures
            r is Ok <==> self.is_valid(),
            r is Ok ==> Self::sealed_model(r->Ok_0) == self.model(),
            r is Err ==> r->Err_0@.len() > 0,
    ;

    /// The total reverse transformation: always succeeds and recovers the
    /// sealed value's model.
    fn open(sealed: Self::Target) -> (r: Self)
        ensures
            r.model() == Self::sealed_model(sealed),
    ;

    /// Structural equality between a raw and a sealed value, without
    /// converting either side: true exactly when their models agree.
    fn partial_eq(&self, other: &Self::Target) -> (r: bool)
        ensures
            r == (self.model() == Self::sealed_model(*other)),
    ;
}

/// A raw type that validates itself in place: the sealed-carrier wrapper
/// runs `check` and, on success, wraps the unchanged raw value.
pub trait Validator {
    /// Whether this value passes validation.
    spec fn valid(&self) -> bool;

    /// Succeeds exactly on valid values; a failure carries at least one
    /// error.
    fn check(&self) -> (r: Result<(), ValidationErrors>)
        ensures
            r is Ok <==> self.valid(),
            r is Err ==> r->Err_0@.len() > 0,
    ;
}

/// The consuming counterpart of [`Validator`]: a raw type that converts
/// itself into a distinct validated type.
pub trait TryIntoNested: Sized {
    /// The validated counterpart of this raw type.
    type Target;

    /// Whether this raw value passes validation.
    spec fn nested_valid(self) -> bool;

    /// Succeeds exactly on valid values; a failure carries at least one
    /// error.
    fn try_into_nested(self) -> (r: Result<Self::Target, ValidationErrors>)
        ensures
            r is Ok <==> self.nested_valid(),
            r is Err ==> r->Err_0@.len() > 0,
    ;
}

/// The round-trip law.  `seal` guarantees of a valid raw value that the
/// sealed result's model equals the raw model, and `open` guarantees that
/// the reopened value's model equals the sealed value's model; hence a
/// valid value survives sealing and reopening with its model intact, and
/// compares equal to its own sealed form under `partial_eq`'s meaning.
pub proof fn lemma_round_trip<S: Sealable>(raw: S, sealed: S::Target, reopened: S)
    requires
        raw.is_valid(),
        S::sealed_model(sealed) == raw.model(),
        reopened.model() == S::sealed_model(sealed),
    ensures
        reopened.model() == raw.model(),
        raw.model() == S::sealed_model(sealed),
{
}

} // verus!
