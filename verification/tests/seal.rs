use sealedstruct::Sealed;
use sealedstruct::ValidationError;
use sealedstruct::ValidationErrors;
use sealedstruct::Validator;

#[derive(PartialEq, Default, Debug)]
pub struct SimpleRaw {
    pub inner: i8,
}

impl Validator for SimpleRaw {
    fn valid(&self) -> bool {
        true
    }

    fn check(&self) -> Result<(), ValidationErrors> {
        Ok(())
    }
}

#[derive(PartialEq, Default, Debug)]
pub struct SimpleTupleRaw(i8);

impl Validator for SimpleTupleRaw {
    fn valid(&self) -> bool {
        true
    }

    fn check(&self) -> Result<(), ValidationErrors> {
        Ok(())
    }
}

#[derive(PartialEq, Default, Debug)]
pub struct SimpleGenericRaw<T: std::fmt::Debug> {
    pub x: i32,
    pub inner: T,
}

impl<T: std::fmt::Debug> Validator for SimpleGenericRaw<T> {
    fn valid(&self) -> bool {
        self.x == 42
    }

    fn check(&self) -> Result<(), ValidationErrors> {
        if self.x == 42 {
            Ok(())
        } else {
            Err(ValidationErrors::new(ValidationError::new("Not 42")))
        }
    }
}

#[test]
fn seal_sealed_numbers_simple() {
    let raw = SimpleRaw { inner: 0 };
    let _sealed: Sealed<SimpleRaw> = Sealed::new(raw).unwrap();
}

#[test]
fn seal_sealed_numbers_tuple() {
    let raw = SimpleTupleRaw(0);
    let _sealed: Sealed<SimpleTupleRaw> = Sealed::new(raw).unwrap();
}

#[test]
fn seal_generic_constrained() {
    let _: Sealed<SimpleGenericRaw<&str>> =
        Sealed::new(SimpleGenericRaw { x: 42, inner: "test" }).unwrap();

    assert!(Sealed::new(SimpleGenericRaw { x: 0, inner: "test" }).is_err());
}
