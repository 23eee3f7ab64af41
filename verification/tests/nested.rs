use std::collections::HashMap;

use sealedstruct::NumbersInner;
use sealedstruct::NumbersRaw;
use sealedstruct::Sealable;
use sealedstruct::ValidationErrors;
use sealedstruct::WrapperRaw;
use sealedstruct::{AlwaysValid, DirectionRaw};
use uuid::Uuid;

fn default_wrapper() -> WrapperRaw {
    WrapperRaw {
        numbers: NumbersRaw::default(),
        optional: None,
        direction: DirectionRaw::Down,
        always: AlwaysValid::Bar,
        map: Vec::new(),
        id: Uuid::from_u128(1),
        hash_map: HashMap::new(),
    }
}

#[test]
fn numbners_is_clone() {
    let value = NumbersRaw::default().seal().unwrap();
    let clone = value.clone();
    assert_eq!(value, clone);
}

#[test]
fn sealed_numbers() {
    let value = NumbersRaw::default().seal().unwrap();
    assert!(NumbersRaw::default().partial_eq(&value));

    let wrapper_sealed = default_wrapper().seal().expect("This should be valid");
    let nr: &NumbersInner = &wrapper_sealed.numbers;

    assert_eq!(0i8, nr.int8);

    assert!(
        !NumbersRaw { int8: 42, ..NumbersRaw::default() }
            .partial_eq(&NumbersRaw::default().seal().unwrap())
    )
}

#[test]
fn error_path() {
    let r = WrapperRaw {
        numbers: NumbersRaw { int8: 127i8, int16: i16::MAX, ..NumbersRaw::default() },
        ..default_wrapper()
    }
    .seal();
    match r {
        Ok(_) => panic!("Should be invalid"),
        Err(err) => {
            let mut into_iter = err.into_vec().into_iter();
            assert_eq!(
                "numbers.int8",
                into_iter
                    .next()
                    .expect("One error")
                    .iter_fields()
                    .first()
                    .expect("Expect one field")
                    .as_str()
            );
            assert_eq!(
                "numbers.int16",
                into_iter
                    .next()
                    .expect("One error")
                    .iter_fields()
                    .first()
                    .expect("Expect second field")
                    .as_str()
            );
        }
    }
}

struct InnerRaw {}

#[derive(PartialEq, Debug)]
struct InnerSealed {}

impl Sealable for InnerRaw {
    type Target = InnerSealed;
    type Model = ();

    fn model(self) -> () {
        ()
    }

    fn sealed_model(_sealed: InnerSealed) -> () {
        ()
    }

    fn is_valid(self) -> bool {
        true
    }

    fn seal(self) -> Result<InnerSealed, ValidationErrors> {
        Ok(InnerSealed {})
    }

    fn open(_sealed: InnerSealed) -> InnerRaw {
        InnerRaw {}
    }

    fn partial_eq(&self, _other: &InnerSealed) -> bool {
        true
    }
}

#[test]
fn test_collection_types() {
    let empty: Option<InnerRaw> = None;
    empty.seal().unwrap();

    let map = [(1i32, NumbersRaw::default())]
        .into_iter()
        .collect::<HashMap<_, _>>();
    map.seal().unwrap();
}

#[test]
fn accumulates_both_tuple_components() {
    let bad8 = NumbersRaw { int8: 127, ..NumbersRaw::default() };
    let bad16 = NumbersRaw { int16: i16::MAX, ..NumbersRaw::default() };
    let errors = (bad8, bad16).seal().unwrap_err();
    assert_eq!(2, errors.len());
}

#[test]
fn wrapper_round_trip() {
    let raw = default_wrapper();
    let sealed = raw.clone().seal().unwrap();
    assert!(raw.partial_eq(&sealed));
    let reopened = WrapperRaw::open(sealed);
    assert_eq!(raw, reopened);
}

#[test]
fn wrapper_compares_ids() {
    let sealed = default_wrapper().seal().unwrap();
    assert!(default_wrapper().partial_eq(&sealed));

    let other_id = WrapperRaw { id: Uuid::from_u128(2), ..default_wrapper() };
    assert!(!other_id.partial_eq(&sealed));
}

#[test]
fn numbers_error_reasons() {
    let errors = NumbersRaw { int8: 100, ..NumbersRaw::default() }.seal().unwrap_err();
    let errors = errors.into_vec();
    assert_eq!(1, errors.len());
    assert_eq!("must be <100", errors[0].reason);

    let errors = NumbersRaw { int16: i16::MAX, ..NumbersRaw::default() }.seal().unwrap_err();
    let errors = errors.into_vec();
    assert_eq!(1, errors.len());
    assert_eq!("max is not allowed", errors[0].reason);
}

#[test]
fn hash_map_field_accumulates() {
    let mut hash_map = HashMap::new();
    hash_map.insert(5i64, NumbersRaw { int8: 127, ..NumbersRaw::default() });
    let raw = WrapperRaw { hash_map, ..default_wrapper() };
    let errors = raw.seal().unwrap_err().into_vec();
    assert_eq!(1, errors.len());
    assert_eq!("hash_map.int8", errors[0].iter_fields().first().unwrap().as_str());
}

#[test]
fn numbers_in_sealed_carrier() {
    let sealed = sealedstruct::Sealed::new(NumbersRaw::default()).unwrap();
    assert_eq!(0i8, sealed.get().int8);
    assert_eq!(NumbersRaw::default(), sealed.into_inner());

    let bad = NumbersRaw { int8: 127, ..NumbersRaw::default() };
    let errors = match sealedstruct::Sealed::new(bad) {
        Ok(_) => panic!("Should be invalid"),
        Err(errors) => errors,
    };
    assert_eq!(1, errors.len());
}

#[test]
fn iter_reads_in_insertion_order() {
    let errors = ValidationErrors::new(sealedstruct::ValidationError::on_field("a", "A"))
        .combine_with(ValidationErrors::new(sealedstruct::ValidationError::on_field("b", "B")));
    let fields: Vec<&str> = errors
        .iter()
        .iter()
        .map(|e| e.iter_fields().first().unwrap().as_str())
        .collect();
    assert_eq!(vec!["a", "b"], fields);
}

#[test]
fn numbers_round_trip() {
    let raw = NumbersRaw { int8: 1, int16: 2, int32: 3, int64: 4, int128: 5 };
    let sealed = raw.seal().unwrap();
    assert!(raw.partial_eq(&sealed));
    let reopened = NumbersRaw::open(sealed);
    assert_eq!(raw, reopened);
}
