use std::collections::{HashMap, HashSet};

use sealedstruct::IntoNestedWrapper;
use sealedstruct::Sealable;
use sealedstruct::Timestamp;
use sealedstruct::ValidationErrors;

#[derive(PartialEq, Eq, Hash, Clone, Default, Debug)]
pub struct FooRaw {
    x: i32,
}

#[derive(PartialEq, Eq, Hash, Clone, Default, Debug)]
pub struct Foo {
    x: i32,
}

impl Sealable for FooRaw {
    type Target = Foo;
    type Model = i32;

    fn model(self) -> i32 {
        self.x
    }

    fn sealed_model(sealed: Foo) -> i32 {
        sealed.x
    }

    fn is_valid(self) -> bool {
        true
    }

    fn seal(self) -> Result<Foo, ValidationErrors> {
        Ok(Foo { x: self.x })
    }

    fn open(sealed: Foo) -> FooRaw {
        FooRaw { x: sealed.x }
    }

    fn partial_eq(&self, other: &Foo) -> bool {
        self.x == other.x
    }
}

#[test]
fn compare_hashmap() {
    let map = [(1, FooRaw { x: 42 })]
        .into_iter()
        .collect::<HashMap<i32, FooRaw>>();
    let mut sealed_map: HashMap<i32, Foo> = map.clone().seal().unwrap();

    assert!(map.partial_eq(&sealed_map));
    let mut clone_map = map.clone();
    clone_map.get_mut(&1).unwrap().x = 0;
    assert!(!clone_map.partial_eq(&sealed_map));
    let value = clone_map.remove(&1).unwrap();
    assert!(!clone_map.partial_eq(&sealed_map));
    clone_map.insert(2, value);
    assert!(!clone_map.partial_eq(&sealed_map));

    sealed_map.remove(&1);
    assert!(!map.partial_eq(&sealed_map));
}

#[test]
fn compare_vec() {
    let mut vec = vec![FooRaw { x: 42 }];
    let sealed_vec = vec.clone().seal().unwrap();
    assert!(vec.partial_eq(&sealed_vec));

    vec.push(FooRaw { x: 42 });
    assert!(!vec.partial_eq(&sealed_vec));
    vec.clear();
    assert!(!vec.partial_eq(&sealed_vec));
    vec.push(FooRaw { x: 10 });
}

#[test]
fn compare_hashset() {
    let mut hashset = [42].into_iter().collect::<HashSet<i32>>();
    let sealed_hashset = hashset.clone().seal().unwrap();
    assert!(hashset.partial_eq(&sealed_hashset));

    assert!(hashset.remove(&42));
    assert!(!hashset.partial_eq(&sealed_hashset));
    hashset.insert(2);
    assert!(!hashset.partial_eq(&sealed_hashset));
}

#[test]
fn compare_option() {
    let some = Some(FooRaw { x: 42 });
    let sealed_some = some.clone().seal().unwrap();
    assert!(some.partial_eq(&sealed_some));
    assert!((None as Option<FooRaw>).partial_eq(&None));
    assert!(!some.partial_eq(&None));
    assert!(!(None as Option<FooRaw>).partial_eq(&sealed_some));
    assert!(!Some(FooRaw { x: 0 }).partial_eq(&sealed_some));
}

#[test]
fn leaves_seal_to_themselves() {
    assert_eq!(Ok(7u8), 7u8.seal());
    assert_eq!(Ok(-3i64), (-3i64).seal());
    assert_eq!(Ok(true), true.seal());
    assert_eq!(Ok("ab".to_string()), "ab".to_string().seal());
    assert_eq!(7u8, u8::open(7u8));
    assert!(5u32.partial_eq(&5u32));
    assert!(!5u32.partial_eq(&6u32));
}

#[test]
fn timestamp_is_a_leaf() {
    let t = Timestamp { seconds: 1_700_000_000, nanos: 5 };
    assert_eq!(Ok(t), t.seal());
    assert_eq!(t, Timestamp::open(t));
    assert!(t.partial_eq(&t));
    assert!(!t.partial_eq(&Timestamp { seconds: 0, nanos: 0 }));
}

#[test]
fn empty_containers_seal_trivially() {
    let empty_vec: Vec<FooRaw> = Vec::new();
    assert_eq!(0, empty_vec.seal().unwrap().len());

    let empty_option: Option<FooRaw> = None;
    assert_eq!(None, empty_option.seal().unwrap());

    let empty_set: HashSet<i32> = HashSet::new();
    assert!(empty_set.seal().unwrap().is_empty());

    let empty_map: HashMap<i64, FooRaw> = HashMap::new();
    assert!(empty_map.seal().unwrap().is_empty());
}

#[test]
fn vec_round_trip() {
    let vec = vec![FooRaw { x: 1 }, FooRaw { x: 2 }];
    let sealed = vec.clone().seal().unwrap();
    assert_eq!(vec, Vec::<FooRaw>::open(sealed));
}

#[test]
fn hashmap_round_trip() {
    let map = [(1i32, FooRaw { x: 42 }), (2, FooRaw { x: 7 })]
        .into_iter()
        .collect::<HashMap<i32, FooRaw>>();
    let sealed = map.clone().seal().unwrap();
    assert_eq!(map, HashMap::<i32, FooRaw>::open(sealed));
}

#[test]
fn into_nested_wrapper_is_transparent() {
    let w = IntoNestedWrapper::wrap(5i32);
    assert_eq!(5, *w.get());
    assert_eq!(IntoNestedWrapper::from(5i32), w);
    let sealed = w.seal().unwrap();
    assert!(w.partial_eq(&sealed));
    assert!(!IntoNestedWrapper::wrap(6i32).partial_eq(&sealed));
    assert_eq!(5, sealed.into_inner());
}

#[test]
fn duration_is_a_leaf() {
    let d = std::time::Duration::from_millis(1500);
    assert_eq!(Ok(d), d.seal());
    assert_eq!(d, std::time::Duration::open(d));
    assert!(d.partial_eq(&d));
    assert!(!d.partial_eq(&std::time::Duration::from_millis(1501)));
}
