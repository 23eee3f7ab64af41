//! The composition algebra: combining independent validation outcomes
//! without losing failures, prefixing field paths, and appending extra
//! failures to an outcome.

use vstd::prelude::*;

use crate::errors::prefixed_errors;
use crate::errors::ValidationError;
use crate::errors::ValidationErrorView;
use crate::errors::ValidationErrors;

verus! {

/// The contribution of one field's outcome to its struct's failure list:
/// nothing for a success, the outcome's failures prefixed with the field
/// name for a failure.
pub open spec fn outcome_errors<T>(r: Result<T, ValidationErrors>, path: Seq<char>) -> Seq<
    ValidationErrorView,
> {
    match r {
        Ok(_) => Seq::<ValidationErrorView>::empty(),
        Err(e) => prefixed_errors(path, e@),
    }
}

impl<T> From<ValidationError> for Result<T, ValidationErrors> {
    /// The failing outcome carrying this single failure.
    fn from(error: ValidationError) -> (r: Result<T, ValidationErrors>)
        ensures
            r is Err && r->Err_0@ == seq![error@],
    {
        Err(ValidationErrors::new(error))
    }
}

impl<T> vstd::std_specs::convert::FromSpecImpl<ValidationError> for Result<T, ValidationErrors> {
    open spec fn obeys_from_spec() -> bool {
        false
    }

    closed spec fn from_spec(error: ValidationError) -> Result<T, ValidationErrors> {
        choose|r: Result<T, ValidationErrors>| r is Err && r->Err_0@ == seq![error@]
    }
}

/// Operations on a validation outcome (`Result<_, ValidationErrors>`).
///
/// The crux of the algebra is that combining two failing outcomes
/// concatenates their failures instead of dropping one of them: sibling
/// failures are never lost.
pub trait ValidationResultExtensions: Sized {
    type Value;

    /// Pairs two successes; propagates a single failure; concatenates two
    /// failures.
    fn combine<T>(self, other: Result<T, ValidationErrors>) -> Result<
        (Self::Value, T),
        ValidationErrors,
    >;

    /// Prefixes `path` to every path segment of a failing outcome; leaves a
    /// succeeding outcome untouched.
    fn prepend_path(self, path: &str) -> Self;

    /// Merges one more failure into an outcome, keeping prior failures.
    fn append_error(self, error: ValidationError) -> Self;
}

impl<TOwn> ValidationResultExtensions for Result<TOwn, ValidationErrors> {
    type Value = TOwn;

    fn combine<T>(self, other: Result<T, ValidationErrors>) -> (r: Result<
        (TOwn, T),
        ValidationErrors,
    >)
        ensures
            self is Ok && other is Ok ==> r == Ok::<(TOwn, T), ValidationErrors>(
                (self->Ok_0, other->Ok_0),
            ),
            self is Ok && other is Err ==> r == Err::<(TOwn, T), ValidationErrors>(other->Err_0),
            self is Err && other is Ok ==> r == Err::<(TOwn, T), ValidationErrors>(self->Err_0),
            self is Err && other is Err ==> r is Err && r->Err_0@ == self->Err_0@ + other->Err_0@,
    {
        match (self, other) {
            (Ok(a), Ok(b)) => Ok((a, b)),
            (Ok(_), Err(e)) => Err(e),
            (Err(e), Ok(_)) => Err(e),
            (Err(a), Err(b)) => Err(a.combine_with(b)),
        }
    }

    fn prepend_path(self, path: &str) -> (r: Self)
        ensures
            self is Ok ==> r == self,
            self is Err ==> r is Err && r->Err_0@ == prefixed_errors(path@, self->Err_0@),
    {
        match self {
            Ok(v) => Ok(v),
            Err(errors) => Err(errors.prefix_all(path)),
        }
    }

    fn append_error(self, error: ValidationError) -> (r: Self)
        ensures
            self is Ok ==> r is Err && r->Err_0@ == seq![error@],
            self is Err ==> r is Err && r->Err_0@ == self->Err_0@ + seq![error@],
    {
        match self {
            Ok(_) => Err(ValidationErrors::new(error)),
            Err(prev) => Err(prev.combine_with(ValidationErrors::new(error))),
        }
    }
}

} // verus!
