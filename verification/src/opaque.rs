//! Leaf implementations for identifier and timestamp values: they run
//! through sealing unchanged.  The identifier type is a foreign one,
//! whose equality is entrusted to the crate that defines it; the
//! timestamp is held as plain values.

use vstd::prelude::*;

use crate::errors::ValidationErrors;
use crate::Sealable;

verus! {

#[verifier::external_type_specification]
#[verifier::external_body]
pub struct ExUuid(uuid::Uuid);

/// Relies on uuid::Uuid's derived PartialEq: two identifiers compare
/// equal exactly when they are the same 128-bit value.
#[verifier::external_body]
fn uuid_eq(a: &uuid::Uuid, b: &uuid::Uuid) -> (r: bool)
    ensures
        r == (a == b),
{
    a == b
}

/// Relies on uuid::Uuid's derived Clone: the identifier is a plain copy
/// type, so the clone is the value itself.
pub assume_specification[ <uuid::Uuid as Clone>::clone ](u: &uuid::Uuid) -> (r: uuid::Uuid)
    ensures
        r == u,
;

impl Sealable for uuid::Uuid {
    type Target = uuid::Uuid;

    type Model = uuid::Uuid;

    open spec fn model(self) -> uuid::Uuid {
        self
    }

    open spec fn sealed_model(sealed: uuid::Uuid) -> uuid::Uuid {
        sealed
    }

    open spec fn is_valid(self) -> bool {
        true
    }

    fn seal(self) -> (r: Result<uuid::Uuid, ValidationErrors>) {
        Ok(self)
    }

    fn open(sealed: uuid::Uuid) -> (r: uuid::Uuid) {
        sealed
    }

    fn partial_eq(&self, other: &uuid::Uuid) -> (r: bool) {
        uuid_eq(self, other)
    }
}

/// Relies on core's PartialEq for Duration: two durations compare equal
/// exactly when they hold the same number of seconds and nanoseconds.
#[verifier::external_body]
fn duration_eq(a: &core::time::Duration, b: &core::time::Duration) -> (r: bool)
    ensures
        r == (a == b),
{
    a == b
}

impl Sealable for core::time::Duration {
    type Target = core::time::Duration;

    type Model = core::time::Duration;

    open spec fn model(self) -> core::time::Duration {
        self
    }

    open spec fn sealed_model(sealed: core::time::Duration) -> core::time::Duration {
        sealed
    }

    open spec fn is_valid(self) -> bool {
        true
    }

    fn seal(self) -> (r: Result<core::time::Duration, ValidationErrors>) {
        Ok(self)
    }

    fn open(sealed: core::time::Duration) -> (r: core::time::Duration) {
        sealed
    }

    fn partial_eq(&self, other: &core::time::Duration) -> (r: bool) {
        duration_eq(self, other)
    }
}

/// A UTC timestamp held as plain values: whole seconds since the epoch
/// and a nanosecond part.  It stands in for a foreign datetime type,
/// which carries the same data; converting between the two is the
/// caller's affair.
#[derive(PartialEq, Eq, Structural, Debug, Clone, Copy, Hash, PartialOrd, Ord)]
pub struct Timestamp {
    pub seconds: i64,
    pub nanos: u32,
}

impl Sealable for Timestamp {
    type Target = Timestamp;

    type Model = Timestamp;

    open spec fn model(self) -> Timestamp {
        self
    }

    open spec fn sealed_model(sealed: Timestamp) -> Timestamp {
        sealed
    }

    open spec fn is_valid(self) -> bool {
        true
    }

    fn seal(self) -> (r: Result<Timestamp, ValidationErrors>) {
        Ok(self)
    }

    fn open(sealed: Timestamp) -> (r: Timestamp) {
        sealed
    }

    fn partial_eq(&self, other: &Timestamp) -> (r: bool) {
        self.seconds == other.seconds && self.nanos == other.nanos
    }
}

} // verus!
