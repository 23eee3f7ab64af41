//! Leaf implementations of the transformation contract: primitive types
//! seal to themselves and can never fail, so container adapters and
//! struct-level code treat every field uniformly, leaf or composite.

use vstd::prelude::*;

use crate::errors::ValidationErrors;
use crate::Sealable;

verus! {

impl Sealable for u8 {
    type Target = u8;

    type Model = u8;

    open spec fn model(self) -> u8 {
        self
    }

    open spec fn sealed_model(sealed: u8) -> u8 {
        sealed
    }

    open spec fn is_valid(self) -> bool {
        true
    }

    fn seal(self) -> (r: Result<u8, ValidationErrors>) {
        Ok(self)
    }

    fn open(sealed: u8) -> (r: u8) {
        sealed
    }

    fn partial_eq(&self, other: &u8) -> (r: bool) {
        *self == *other
    }
}

impl Sealable for bool {
    type Target = bool;

    type Model = bool;

    open spec fn model(self) -> bool {
        self
    }

    open spec fn sealed_model(sealed: bool) -> bool {
        sealed
    }

    open spec fn is_valid(self) -> bool {
        true
    }

    fn seal(self) -> (r: Result<bool, ValidationErrors>) {
        Ok(self)
    }

    fn open(sealed: bool) -> (r: bool) {
        sealed
    }

    fn partial_eq(&self, other: &bool) -> (r: bool) {
        *self == *other
    }
}

impl Sealable for String {
    type Target = String;

    type Model = Seq<char>;

    open spec fn model(self) -> Seq<char> {
        self@
    }

    open spec fn sealed_model(sealed: String) -> Seq<char> {
        sealed@
    }

    open spec fn is_valid(self) -> bool {
        true
    }

    fn seal(self) -> (r: Result<String, ValidationErrors>) {
        Ok(self)
    }

    fn open(sealed: String) -> (r: String) {
        sealed
    }

    fn partial_eq(&self, other: &String) -> (r: bool) {
        self.eq(other)
    }
}

impl Sealable for u16 {
    type Target = u16;

    type Model = u16;

    open spec fn model(self) -> u16 {
        self
    }

    open spec fn sealed_model(sealed: u16) -> u16 {
        sealed
    }

    open spec fn is_valid(self) -> bool {
        true
    }

    fn seal(self) -> (r: Result<u16, ValidationErrors>) {
        Ok(self)
    }

    fn open(sealed: u16) -> (r: u16) {
        sealed
    }

    fn partial_eq(&self, other: &u16) -> (r: bool) {
        *self == *other
    }
}

impl Sealable for u32 {
    type Target = u32;

    type Model = u32;

    open spec fn model(self) -> u32 {
        self
    }

    open spec fn sealed_model(sealed: u32) -> u32 {
        sealed
    }

    open spec fn is_valid(self) -> bool {
        true
    }

    fn seal(self) -> (r: Result<u32, ValidationErrors>) {
        Ok(self)
    }

    fn open(sealed: u32) -> (r: u32) {
        sealed
    }

    fn partial_eq(&self, other: &u32) -> (r: bool) {
        *self == *other
    }
}

impl Sealable for u64 {
    type Target = u64;

    type Model = u64;

    open spec fn model(self) -> u64 {
        self
    }

    open spec fn sealed_model(sealed: u64) -> u64 {
        sealed
    }

    open spec fn is_valid(self) -> bool {
        true
    }

    fn seal(self) -> (r: Result<u64, ValidationErrors>) {
        Ok(self)
    }

    fn open(sealed: u64) -> (r: u64) {
        sealed
    }

    fn partial_eq(&self, other: &u64) -> (r: bool) {
        *self == *other
    }
}

impl Sealable for u128 {
    type Target = u128;

    type Model = u128;

    open spec fn model(self) -> u128 {
        self
    }

    open spec fn sealed_model(sealed: u128) -> u128 {
        sealed
    }

    open spec fn is_valid(self) -> bool {
        true
    }

    fn seal(self) -> (r: Result<u128, ValidationErrors>) {
        Ok(self)
    }

    fn open(sealed: u128) -> (r: u128) {
        sealed
    }

    fn partial_eq(&self, other: &u128) -> (r: bool) {
        *self == *other
    }
}

impl Sealable for i8 {
    type Target = i8;

    type Model = i8;

    open spec fn model(self) -> i8 {
        self
    }

    open spec fn sealed_model(sealed: i8) -> i8 {
        sealed
    }

    open spec fn is_valid(self) -> bool {
        true
    }

    fn seal(self) -> (r: Result<i8, ValidationErrors>) {
        Ok(self)
    }

    fn open(sealed: i8) -> (r: i8) {
        sealed
    }

    fn partial_eq(&self, other: &i8) -> (r: bool) {
        *self == *other
    }
}

impl Sealable for i16 {
    type Target = i16;

    type Model = i16;

    open spec fn model(self) -> i16 {
        self
    }

    open spec fn sealed_model(sealed: i16) -> i16 {
        sealed
    }

    open spec fn is_valid(self) -> bool {
        true
    }

    fn seal(self) -> (r: Result<i16, ValidationErrors>) {
        Ok(self)
    }

    fn open(sealed: i16) -> (r: i16) {
        sealed
    }

    fn partial_eq(&self, other: &i16) -> (r: bool) {
        *self == *other
    }
}

impl Sealable for i32 {
    type Target = i32;

    type Model = i32;

    open spec fn model(self) -> i32 {
        self
    }

    open spec fn sealed_model(sealed: i32) -> i32 {
        sealed
    }

    open spec fn is_valid(self) -> bool {
        true
    }

    fn seal(self) -> (r: Result<i32, ValidationErrors>) {
        Ok(self)
    }

    fn open(sealed: i32) -> (r: i32) {
        sealed
    }

    fn partial_eq(&self, other: &i32) -> (r: bool) {
        *self == *other
    }
}

impl Sealable for i64 {
    type Target = i64;

    type Model = i64;

    open spec fn model(self) -> i64 {
        self
    }

    open spec fn sealed_model(sealed: i64) -> i64 {
        sealed
    }

    open spec fn is_valid(self) -> bool {
        true
    }

    fn seal(self) -> (r: Result<i64, ValidationErrors>) {
        Ok(self)
    }

    fn open(sealed: i64) -> (r: i64) {
        sealed
    }

    fn partial_eq(&self, other: &i64) -> (r: bool) {
        *self == *other
    }
}

impl Sealable for i128 {
    type Target = i128;

    type Model = i128;

    open spec fn model(self) -> i128 {
        self
    }

    open spec fn sealed_model(sealed: i128) -> i128 {
        sealed
    }

    open spec fn is_valid(self) -> bool {
        true
    }

    fn seal(self) -> (r: Result<i128, ValidationErrors>) {
        Ok(self)
    }

    fn open(sealed: i128) -> (r: i128) {
        sealed
    }

    fn partial_eq(&self, other: &i128) -> (r: bool) {
        *self == *other
    }
}

impl Sealable for usize {
    type Target = usize;

    type Model = usize;

    open spec fn model(self) -> usize {
        self
    }

    open spec fn sealed_model(sealed: usize) -> usize {
        sealed
    }

    open spec fn is_valid(self) -> bool {
        true
    }

    fn seal(self) -> (r: Result<usize, ValidationErrors>) {
        Ok(self)
    }

    fn open(sealed: usize) -> (r: usize) {
        sealed
    }

    fn partial_eq(&self, other: &usize) -> (r: bool) {
        *self == *other
    }
}

impl Sealable for isize {
    type Target = isize;

    type Model = isize;

    open spec fn model(self) -> isize {
        self
    }

    open spec fn sealed_model(sealed: isize) -> isize {
        sealed
    }

    open spec fn is_valid(self) -> bool {
        true
    }

    fn seal(self) -> (r: Result<isize, ValidationErrors>) {
        Ok(self)
    }

    fn open(sealed: isize) -> (r: isize) {
        sealed
    }

    fn partial_eq(&self, other: &isize) -> (r: bool) {
        *self == *other
    }
}

impl Sealable for &'static str {
    type Target = &'static str;

    type Model = Seq<char>;

    open spec fn model(self) -> Seq<char> {
        self@
    }

    open spec fn sealed_model(sealed: &'static str) -> Seq<char> {
        sealed@
    }

    open spec fn is_valid(self) -> bool {
        true
    }

    fn seal(self) -> (r: Result<&'static str, ValidationErrors>) {
        Ok(self)
    }

    fn open(sealed: &'static str) -> (r: &'static str) {
        sealed
    }

    fn partial_eq(&self, other: &&'static str) -> (r: bool) {
        let a: String = (*self).to_owned();
        let b: String = (*other).to_owned();
        a.eq(&b)
    }
}


/// Leaf totality: a primitive leaf value is always valid — so sealing it
/// is owed success by the contract of `seal` — and it is its own model,
/// so sealing and opening are the identity.
pub proof fn lemma_leaf_totality(b: bool, n: u64, i: i64, s: String)
    ensures
        b.is_valid() && b.model() == b && <bool as Sealable>::sealed_model(b) == b,
        n.is_valid() && n.model() == n && <u64 as Sealable>::sealed_model(n) == n,
        i.is_valid() && i.model() == i && <i64 as Sealable>::sealed_model(i) == i,
        s.is_valid() && s.model() == s@ && <String as Sealable>::sealed_model(s) == s@,
{
}

} // verus!
