//! A worked example of the hand-written pattern that the transformation
//! contract is designed for: a nested configuration structure with a
//! validated companion type, an intermediate per-field-result type, and
//! the struct-level fold that accumulates every field failure under its
//! dotted path.

use std::collections::HashMap;

use vstd::prelude::*;

use crate::errors::prefixed_error;
use crate::errors::prefixed_errors;
use crate::errors::prefixed_segment;
use crate::errors::ValidationError;
use crate::errors::ValidationErrorView;
use crate::errors::ValidationErrors;
use crate::results::outcome_errors;
use crate::results::ValidationResultExtensions;
use crate::Sealable;
use crate::TryIntoNested;

verus! {

/// An unchecked bundle of numbers.  Validation demands that `int8` be
/// below 100 and that `int16` not be the maximum value.
#[derive(PartialEq, Eq, Structural, Debug, Clone, Copy)]
pub struct NumbersRaw {
    pub int8: i8,
    pub int16: i16,
    pub int32: i32,
    pub int64: i64,
    pub int128: i128,
}

/// The validated companion of [`NumbersRaw`].
#[derive(PartialEq, Eq, Structural, Debug, Clone, Copy)]
pub struct NumbersInner {
    pub int8: i8,
    pub int16: i16,
    pub int32: i32,
    pub int64: i64,
    pub int128: i128,
}

impl Default for NumbersRaw {
    fn default() -> (r: NumbersRaw)
        ensures
            r == (NumbersRaw { int8: 0, int16: 0, int32: 0, int64: 0, int128: 0 }),
    {
        NumbersRaw { int8: 0, int16: 0, int32: 0, int64: 0, int128: 0 }
    }
}

/// The intermediate per-field-result type of [`NumbersRaw`]: every field
/// carries its own validation outcome, so no failure can shadow another.
pub struct NumbersResult {
    pub int8: Result<i8, ValidationErrors>,
    pub int16: Result<i16, ValidationErrors>,
    pub int32: Result<i32, ValidationErrors>,
    pub int64: Result<i64, ValidationErrors>,
    pub int128: Result<i128, ValidationErrors>,
}

/// The failures that folding a [`NumbersResult`] reports: each field's
/// failures under that field's name, in declaration order.
pub open spec fn numbers_result_errors(r: NumbersResult) -> Seq<ValidationErrorView> {
    outcome_errors(r.int8, "int8"@) + outcome_errors(r.int16, "int16"@) + outcome_errors(
        r.int32,
        "int32"@,
    ) + outcome_errors(r.int64, "int64"@) + outcome_errors(r.int128, "int128"@)
}

impl NumbersResult {
    /// The struct-level fold: prefixes each field's failures with the
    /// field's name and combines all outcomes without ever dropping one.
    pub fn into_inner_result(self) -> (r: Result<NumbersInner, ValidationErrors>)
        ensures
            r is Ok <==> (self.int8 is Ok && self.int16 is Ok && self.int32 is Ok
                && self.int64 is Ok && self.int128 is Ok),
            r is Ok ==> r->Ok_0 == (NumbersInner {
                int8: self.int8->Ok_0,
                int16: self.int16->Ok_0,
                int32: self.int32->Ok_0,
                int64: self.int64->Ok_0,
                int128: self.int128->Ok_0,
            }),
            r is Err ==> r->Err_0@ == numbers_result_errors(self),
    {
        let ghost this = self;
        let NumbersResult { int8, int16, int32, int64, int128 } = self;
        let folded = int8.prepend_path("int8").combine(int16.prepend_path("int16")).combine(
            int32.prepend_path("int32"),
        ).combine(int64.prepend_path("int64")).combine(int128.prepend_path("int128"));
        match folded {
            Ok(((((a, b), c), d), e)) => Ok(
                NumbersInner { int8: a, int16: b, int32: c, int64: d, int128: e },
            ),
            Err(errs) => {
                proof {
                    assert(errs@ =~= numbers_result_errors(this));
                }
                Err(errs)
            },
        }
    }
}

/// The failures that sealing a [`NumbersRaw`] reports, in declaration
/// order of the offending fields.
pub open spec fn numbers_error_views(n: NumbersRaw) -> Seq<ValidationErrorView> {
    (if n.int8 < 100 {
        Seq::<ValidationErrorView>::empty()
    } else {
        seq![
            (ValidationErrorView { fields: seq!["int8"@], reason: "must be <100"@ }),
        ]
    }) + (if n.int16 == i16::MAX {
        seq![
            (ValidationErrorView { fields: seq!["int16"@], reason: "max is not allowed"@ }),
        ]
    } else {
        Seq::<ValidationErrorView>::empty()
    })
}

impl TryIntoNested for NumbersRaw {
    type Target = NumbersInner;

    open spec fn nested_valid(self) -> bool {
        self.int8 < 100 && self.int16 != i16::MAX
    }

    /// Validates every field independently — no early return — and folds
    /// the outcomes.
    fn try_into_nested(self) -> (r: Result<NumbersInner, ValidationErrors>)
        ensures
            r is Ok ==> r->Ok_0 == (NumbersInner {
                int8: self.int8,
                int16: self.int16,
                int32: self.int32,
                int64: self.int64,
                int128: self.int128,
            }),
            r is Err ==> r->Err_0@ == numbers_error_views(self),
    {
        let ghost this = self;
        let result = NumbersResult {
            int8: if self.int8 < 100 {
                Ok(self.int8)
            } else {
                Err(ValidationErrors::new(ValidationError::new("must be <100")))
            },
            int16: if self.int16 != i16::MAX {
                Ok(self.int16)
            } else {
                Err(ValidationErrors::new(ValidationError::new("max is not allowed")))
            },
            int32: Ok(self.int32),
            int64: Ok(self.int64),
            int128: Ok(self.int128),
        };
        let ghost res = result;
        let r = result.into_inner_result();
        proof {
            if !this.nested_valid() {
                if this.int8 >= 100 {
                    let ev = res.int8->Err_0@[0];
                    assert(prefixed_error("int8"@, ev).fields =~= seq!["int8"@]);
                    assert(outcome_errors(res.int8, "int8"@) =~~= seq![
                        (ValidationErrorView { fields: seq!["int8"@], reason: "must be <100"@ }),
                    ]);
                }
                if this.int16 == i16::MAX {
                    let ev = res.int16->Err_0@[0];
                    assert(prefixed_error("int16"@, ev).fields =~= seq!["int16"@]);
                    assert(outcome_errors(res.int16, "int16"@) =~~= seq![
                        (ValidationErrorView {
                            fields: seq!["int16"@],
                            reason: "max is not allowed"@,
                        }),
                    ]);
                }
                assert(r->Err_0@ =~~= numbers_error_views(this));
            }
        }
        r
    }
}

impl crate::Validator for NumbersRaw {
    open spec fn valid(&self) -> bool {
        (*self).nested_valid()
    }

    /// Validates in place, reporting the same failures that sealing
    /// would, so the bundle can also live inside the sealed carrier.
    fn check(&self) -> (r: Result<(), ValidationErrors>) {
        match (*self).try_into_nested() {
            Ok(_) => Ok(()),
            Err(errors) => Err(errors),
        }
    }
}

impl Sealable for NumbersRaw {
    type Target = NumbersInner;

    type Model = NumbersRaw;

    open spec fn model(self) -> NumbersRaw {
        self
    }

    open spec fn sealed_model(sealed: NumbersInner) -> NumbersRaw {
        NumbersRaw {
            int8: sealed.int8,
            int16: sealed.int16,
            int32: sealed.int32,
            int64: sealed.int64,
            int128: sealed.int128,
        }
    }

    open spec fn is_valid(self) -> bool {
        self.nested_valid()
    }

    fn seal(self) -> (r: Result<NumbersInner, ValidationErrors>)
        ensures
            r is Err ==> r->Err_0@ == numbers_error_views(self),
    {
        self.try_into_nested()
    }

    fn open(sealed: NumbersInner) -> (r: NumbersRaw) {
        NumbersRaw {
            int8: sealed.int8,
            int16: sealed.int16,
            int32: sealed.int32,
            int64: sealed.int64,
            int128: sealed.int128,
        }
    }

    fn partial_eq(&self, other: &NumbersInner) -> (r: bool) {
        self.int8 == other.int8 && self.int16 == other.int16 && self.int32 == other.int32
            && self.int64 == other.int64 && self.int128 == other.int128
    }
}

/// An unchecked direction; every variant is valid.
#[derive(PartialEq, Eq, Structural, Debug, Clone, Copy)]
pub enum DirectionRaw {
    Up,
    Down,
}

/// The validated companion of [`DirectionRaw`].
#[derive(PartialEq, Eq, Structural, Debug, Clone, Copy)]
pub enum DirectionInner {
    Up,
    Down,
}

impl Sealable for DirectionRaw {
    type Target = DirectionInner;

    type Model = DirectionRaw;

    open spec fn model(self) -> DirectionRaw {
        self
    }

    open spec fn sealed_model(sealed: DirectionInner) -> DirectionRaw {
        match sealed {
            DirectionInner::Up => DirectionRaw::Up,
            DirectionInner::Down => DirectionRaw::Down,
        }
    }

    open spec fn is_valid(self) -> bool {
        true
    }

    fn seal(self) -> (r: Result<DirectionInner, ValidationErrors>) {
        match self {
            DirectionRaw::Up => Ok(DirectionInner::Up),
            DirectionRaw::Down => Ok(DirectionInner::Down),
        }
    }

    fn open(sealed: DirectionInner) -> (r: DirectionRaw) {
        match sealed {
            DirectionInner::Up => DirectionRaw::Up,
            DirectionInner::Down => DirectionRaw::Down,
        }
    }

    fn partial_eq(&self, other: &DirectionInner) -> (r: bool) {
        match (self, other) {
            (DirectionRaw::Up, DirectionInner::Up) => true,
            (DirectionRaw::Down, DirectionInner::Down) => true,
            _ => false,
        }
    }
}

/// A type that is valid by construction: it seals to itself.
#[derive(PartialEq, Eq, Structural, Debug, Clone, Copy)]
pub enum AlwaysValid {
    Bar,
}

impl Sealable for AlwaysValid {
    type Target = AlwaysValid;

    type Model = AlwaysValid;

    open spec fn model(self) -> AlwaysValid {
        self
    }

    open spec fn sealed_model(sealed: AlwaysValid) -> AlwaysValid {
        sealed
    }

    open spec fn is_valid(self) -> bool {
        true
    }

    fn seal(self) -> (r: Result<AlwaysValid, ValidationErrors>) {
        Ok(self)
    }

    fn open(sealed: AlwaysValid) -> (r: AlwaysValid) {
        sealed
    }

    fn partial_eq(&self, other: &AlwaysValid) -> (r: bool) {
        true
    }
}

/// An unchecked structure nesting [`NumbersRaw`] among other fields: the
/// stage for the full struct-level fold with dotted paths.
#[derive(PartialEq, Eq, Debug, Clone)]
pub struct WrapperRaw {
    pub numbers: NumbersRaw,
    pub optional: Option<i32>,
    pub direction: DirectionRaw,
    pub always: AlwaysValid,
    pub map: Vec<NumbersRaw>,
    pub id: uuid::Uuid,
    pub hash_map: HashMap<i64, NumbersRaw>,
}

/// The validated companion of [`WrapperRaw`].
#[derive(PartialEq, Eq, Debug, Clone)]
pub struct WrapperInner {
    pub numbers: NumbersInner,
    pub optional: Option<i32>,
    pub direction: DirectionInner,
    pub always: AlwaysValid,
    pub map: Vec<NumbersInner>,
    pub id: uuid::Uuid,
    pub hash_map: HashMap<i64, NumbersInner>,
}

/// The failures that sealing a wrapper with an entirely valid `map` field
/// reports: its numbers' failures, each under the path `numbers.`.
pub open spec fn wrapper_numbers_errors(w: WrapperRaw) -> Seq<ValidationErrorView> {
    prefixed_errors("numbers"@, numbers_error_views(w.numbers))
}

impl Sealable for WrapperRaw {
    type Target = WrapperInner;

    type Model = (
        NumbersRaw,
        Option<i32>,
        DirectionRaw,
        AlwaysValid,
        Seq<NumbersRaw>,
        uuid::Uuid,
        Map<i64, NumbersRaw>,
    );

    open spec fn model(self) -> (
        NumbersRaw,
        Option<i32>,
        DirectionRaw,
        AlwaysValid,
        Seq<NumbersRaw>,
        uuid::Uuid,
        Map<i64, NumbersRaw>,
    ) {
        (
            self.numbers,
            self.optional,
            self.direction,
            self.always,
            self.map.model(),
            self.id,
            self.hash_map.model(),
        )
    }

    open spec fn sealed_model(sealed: WrapperInner) -> (
        NumbersRaw,
        Option<i32>,
        DirectionRaw,
        AlwaysValid,
        Seq<NumbersRaw>,
        uuid::Uuid,
        Map<i64, NumbersRaw>,
    ) {
        (
            <NumbersRaw as Sealable>::sealed_model(sealed.numbers),
            sealed.optional,
            <DirectionRaw as Sealable>::sealed_model(sealed.direction),
            sealed.always,
            <Vec<NumbersRaw> as Sealable>::sealed_model(sealed.map),
            sealed.id,
            <HashMap<i64, NumbersRaw> as Sealable>::sealed_model(sealed.hash_map),
        )
    }

    open spec fn is_valid(self) -> bool {
        self.numbers.nested_valid() && (forall|i: int|
            0 <= i < self.map@.len() ==> (#[trigger] self.map@[i]).nested_valid()) && (forall|k:
            i64|
            #[trigger] self.hash_map@.contains_key(k) ==> self.hash_map@[k].nested_valid())
    }

    /// The struct-level fold: every field is validated independently, each
    /// field's failures are prefixed with the field's name, and the
    /// outcomes are combined left to right.
    fn seal(self) -> (r: Result<WrapperInner, ValidationErrors>)
        ensures
            (r is Err && (forall|i: int|
                0 <= i < self.map@.len() ==> (#[trigger] self.map@[i]).nested_valid()) && (forall|
                k: i64,
            |
                #[trigger] self.hash_map@.contains_key(k) ==> self.hash_map@[k].nested_valid()))
                ==> r->Err_0@ == wrapper_numbers_errors(self),
    {
        let ghost this = self;
        let WrapperRaw { numbers, optional, direction, always, map, id, hash_map } = self;
        let folded = numbers.seal().prepend_path("numbers").combine(
            optional.seal().prepend_path("optional"),
        ).combine(direction.seal().prepend_path("direction")).combine(
            always.seal().prepend_path("always"),
        ).combine(map.seal().prepend_path("map")).combine(id.seal().prepend_path("id")).combine(
            hash_map.seal().prepend_path("hash_map"),
        );
        match folded {
            Ok(((((((numbers, optional), direction), always), map), id), hash_map)) => Ok(
                WrapperInner { numbers, optional, direction, always, map, id, hash_map },
            ),
            Err(errs) => Err(errs),
        }
    }

    fn open(sealed: WrapperInner) -> (r: WrapperRaw) {
        WrapperRaw {
            numbers: <NumbersRaw as Sealable>::open(sealed.numbers),
            optional: sealed.optional,
            direction: <DirectionRaw as Sealable>::open(sealed.direction),
            always: sealed.always,
            map: <Vec<NumbersRaw> as Sealable>::open(sealed.map),
            id: sealed.id,
            hash_map: <HashMap<i64, NumbersRaw> as Sealable>::open(sealed.hash_map),
        }
    }

    fn partial_eq(&self, other: &WrapperInner) -> (r: bool) {
        self.numbers.partial_eq(&other.numbers) && self.optional.partial_eq(&other.optional)
            && self.direction.partial_eq(&other.direction) && self.always.partial_eq(&other.always)
            && self.map.partial_eq(&other.map) && self.id.partial_eq(&other.id)
            && self.hash_map.partial_eq(&other.hash_map)
    }
}

/// The round-trip law at a concrete type: the example's model is the raw
/// value itself, so a valid raw value that seals and is reopened comes
/// back as the very same value, not merely one with the same model.
pub proof fn lemma_numbers_round_trip(raw: NumbersRaw, sealed: NumbersInner, reopened: NumbersRaw)
    requires
        raw.nested_valid(),
        <NumbersRaw as Sealable>::sealed_model(sealed) == raw.model(),
        reopened.model() == <NumbersRaw as Sealable>::sealed_model(sealed),
    ensures
        reopened == raw,
{
}

/// Sealing a wrapper whose `int8` and `int16` are both invalid (and whose
/// `map` is entirely valid) reports exactly two failures, whose single
/// path segments are `numbers.int8` and `numbers.int16`, in that order.
pub proof fn lemma_wrapper_error_paths(w: WrapperRaw)
    requires
        w.numbers.int8 >= 100,
        w.numbers.int16 == i16::MAX,
    ensures
        wrapper_numbers_errors(w).len() == 2,
        wrapper_numbers_errors(w)[0].fields == seq!["numbers.int8"@],
        wrapper_numbers_errors(w)[0].reason == "must be <100"@,
        wrapper_numbers_errors(w)[1].fields == seq!["numbers.int16"@],
        wrapper_numbers_errors(w)[1].reason == "max is not allowed"@,
{
    reveal_strlit("numbers");
    reveal_strlit("int8");
    reveal_strlit("int16");
    reveal_strlit("numbers.int8");
    reveal_strlit("numbers.int16");
    assert(prefixed_segment("numbers"@, "int8"@) =~= "numbers.int8"@);
    assert(prefixed_segment("numbers"@, "int16"@) =~= "numbers.int16"@);
    assert(wrapper_numbers_errors(w)[0].fields =~= seq!["numbers.int8"@]);
    assert(wrapper_numbers_errors(w)[1].fields =~= seq!["numbers.int16"@]);
}

} // verus!
