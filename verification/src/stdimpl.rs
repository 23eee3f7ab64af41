//! Container adapters: generic, recursive implementations of the
//! transformation contract for optional values, sequences, maps, sets and
//! tuples, so validation composes through arbitrary nesting.
//!
//! Collection adapters follow the struct-level fold's policy and accumulate
//! every element failure instead of stopping at the first one.

use std::collections::HashMap;
use std::collections::HashSet;

use vstd::prelude::*;
use vstd::std_specs::iter::IteratorSpec;

use crate::errors::ValidationErrors;
use crate::results::ValidationResultExtensions;
use crate::Sealable;

verus! {

broadcast use vstd::std_specs::hash::group_hash_axioms;

/// A type fit to serve as the key of a hashed collection while sealing:
/// it seals to itself (always successfully), it is its own model, and
/// Verus's model of Rust hash tables is known to apply to it.
///
/// Hashed collections can only be reasoned about for such keys, which is
/// why the map adapter requires its key type — and the set adapter its
/// element type — to implement this trait.
pub trait SealableKey: Sealable<Target = Self, Model = Self> + Eq + core::hash::Hash + Copy {
    /// The facts the hashed-collection adapters rely on.
    proof fn key_properties()
        ensures
            vstd::std_specs::hash::obeys_key_model::<Self>(),
            forall|k: Self| (#[trigger] k.model()) == k,
            forall|k: Self| (#[trigger] Self::sealed_model(k)) == k,
            forall|k: Self| (#[trigger] k.is_valid()),
    ;
}

impl<T0: Sealable, T1: Sealable> Sealable for (T0, T1) {
    type Target = (T0::Target, T1::Target);

    type Model = (T0::Model, T1::Model);

    open spec fn model(self) -> (T0::Model, T1::Model) {
        (self.0.model(), self.1.model())
    }

    open spec fn sealed_model(sealed: (T0::Target, T1::Target)) -> (T0::Model, T1::Model) {
        (T0::sealed_model(sealed.0), T1::sealed_model(sealed.1))
    }

    open spec fn is_valid(self) -> bool {
        self.0.is_valid() && self.1.is_valid()
    }

    /// Seals each component independently and combines the outcomes, so
    /// every failing component is reported.
    fn seal(self) -> (r: Result<(T0::Target, T1::Target), ValidationErrors>) {
        match self.0.seal().combine(self.1.seal()) {
            Ok(pair) => Ok(pair),
            Err(e) => Err(e),
        }
    }

    fn open(sealed: (T0::Target, T1::Target)) -> (r: (T0, T1)) {
        (T0::open(sealed.0), T1::open(sealed.1))
    }

    fn partial_eq(&self, other: &(T0::Target, T1::Target)) -> (r: bool) {
        self.0.partial_eq(&other.0) && self.1.partial_eq(&other.1)
    }
}

impl<T0: Sealable, T1: Sealable, T2: Sealable> Sealable for (T0, T1, T2) {
    type Target = (T0::Target, T1::Target, T2::Target);

    type Model = (T0::Model, T1::Model, T2::Model);

    open spec fn model(self) -> (T0::Model, T1::Model, T2::Model) {
        (self.0.model(), self.1.model(), self.2.model())
    }

    open spec fn sealed_model(sealed: (T0::Target, T1::Target, T2::Target)) -> (
        T0::Model,
        T1::Model,
        T2::Model,
    ) {
        (T0::sealed_model(sealed.0), T1::sealed_model(sealed.1), T2::sealed_model(sealed.2))
    }

    open spec fn is_valid(self) -> bool {
        self.0.is_valid() && self.1.is_valid() && self.2.is_valid()
    }

    /// Seals each component independently and combines the outcomes, so
    /// every failing component is reported.
    fn seal(self) -> (r: Result<(T0::Target, T1::Target, T2::Target), ValidationErrors>) {
        match self.0.seal().combine(self.1.seal()).combine(self.2.seal()) {
            Ok(((t0, t1), t2)) => Ok((t0, t1, t2)),
            Err(e) => Err(e),
        }
    }

    fn open(sealed: (T0::Target, T1::Target, T2::Target)) -> (r: (T0, T1, T2)) {
        (T0::open(sealed.0), T1::open(sealed.1), T2::open(sealed.2))
    }

    fn partial_eq(&self, other: &(T0::Target, T1::Target, T2::Target)) -> (r: bool) {
        self.0.partial_eq(&other.0) && self.1.partial_eq(&other.1) && self.2.partial_eq(&other.2)
    }
}

impl<T: Sealable> Sealable for Option<T> {
    type Target = Option<T::Target>;

    type Model = Option<T::Model>;

    open spec fn model(self) -> Option<T::Model> {
        match self {
            Some(x) => Some(x.model()),
            None => None,
        }
    }

    open spec fn sealed_model(sealed: Option<T::Target>) -> Option<T::Model> {
        match sealed {
            Some(x) => Some(T::sealed_model(x)),
            None => None,
        }
    }

    open spec fn is_valid(self) -> bool {
        match self {
            Some(x) => x.is_valid(),
            None => true,
        }
    }

    /// An absent value is always valid; a present one propagates its own
    /// outcome untouched.
    fn seal(self) -> (r: Result<Option<T::Target>, ValidationErrors>) {
        match self {
            Some(x) => match x.seal() {
                Ok(t) => Ok(Some(t)),
                Err(e) => Err(e),
            },
            None => Ok(None),
        }
    }

    fn open(sealed: Option<T::Target>) -> (r: Option<T>) {
        match sealed {
            Some(x) => Some(T::open(x)),
            None => None,
        }
    }

    fn partial_eq(&self, other: &Option<T::Target>) -> (r: bool) {
        match (self, other) {
            (None, None) => true,
            (Some(a), Some(b)) => a.partial_eq(b),
            _ => false,
        }
    }
}

impl<T: Sealable> Sealable for Vec<T> {
    type Target = Vec<T::Target>;

    type Model = Seq<T::Model>;

    open spec fn model(self) -> Seq<T::Model> {
        self@.map_values(|x: T| x.model())
    }

    open spec fn sealed_model(sealed: Vec<T::Target>) -> Seq<T::Model> {
        sealed@.map_values(|x: T::Target| T::sealed_model(x))
    }

    open spec fn is_valid(self) -> bool {
        forall|i: int| 0 <= i < self@.len() ==> (#[trigger] self@[i]).is_valid()
    }

    /// Seals element-wise, accumulating the failures of every invalid
    /// element in iteration order.
    fn seal(self) -> (r: Result<Vec<T::Target>, ValidationErrors>) {
        let ghost orig = self@;
        let mut out: Vec<T::Target> = Vec::new();
        let mut failures: Option<ValidationErrors> = None;
        for e in it: self.into_iter()
            invariant
                it.seq() == orig,
                failures is None ==> forall|j: int|
                    0 <= j < it.index() ==> (#[trigger] orig[j]).is_valid(),
                failures is None ==> out@.len() == it.index() && forall|j: int|
                    0 <= j < it.index() ==> T::sealed_model(#[trigger] out@[j]) == orig[j].model(),
                failures is Some ==> failures->0@.len() > 0 && exists|j: int|
                    0 <= j < it.index() && !(#[trigger] orig[j]).is_valid(),
        {
            match e.seal() {
                Ok(t) => {
                    out.push(t);
                },
                Err(errs) => {
                    let acc = match failures {
                        None => errs,
                        Some(prev) => prev.combine_with(errs),
                    };
                    failures = Some(acc);
                },
            }
        }
        match failures {
            None => {
                proof {
                    assert(Self::sealed_model(out) =~= orig.map_values(|x: T| x.model()));
                }
                Ok(out)
            },
            Some(errs) => Err(errs),
        }
    }

    fn open(sealed: Vec<T::Target>) -> (r: Vec<T>) {
        let ghost orig = sealed@;
        let mut out: Vec<T> = Vec::new();
        for e in it: sealed.into_iter()
            invariant
                it.seq() == orig,
                out@.len() == it.index(),
                forall|j: int|
                    0 <= j < it.index() ==> (#[trigger] out@[j]).model() == T::sealed_model(
                        orig[j],
                    ),
        {
            out.push(T::open(e));
        }
        proof {
            assert(out.model() =~= Self::sealed_model(sealed));
        }
        out
    }

    /// A length mismatch short-circuits to false; otherwise elements are
    /// compared pairwise in order.
    fn partial_eq(&self, other: &Vec<T::Target>) -> (r: bool) {
        let n = self.len();
        if n != other.len() {
            proof {
                assert((*self).model().len() == self@.len());
                assert(Self::sealed_model(*other).len() == other@.len());
            }
            return false;
        }
        let mut i: usize = 0;
        while i < n
            invariant
                n == self@.len(),
                n == other@.len(),
                i <= n,
                forall|j: int|
                    0 <= j < i ==> (#[trigger] self@[j]).model() == T::sealed_model(other@[j]),
            decreases n - i,
        {
            if !self[i].partial_eq(&other[i]) {
                proof {
                    assert((*self).model()[i as int] != Self::sealed_model(*other)[i as int]);
                }
                return false;
            }
            i += 1;
        }
        proof {
            assert((*self).model() =~= Self::sealed_model(*other));
        }
        true
    }
}

/// Map structural equality: a raw map and a sealed map have equal models
/// — which is what the map adapter's `partial_eq` decides — exactly when
/// they have the same length and every raw entry's key exists on the
/// sealed side with a value of equal model.  Order is irrelevant.
pub proof fn lemma_map_partial_eq_meaning<K: SealableKey, V: Sealable>(
    m: HashMap<K, V>,
    t: HashMap<K, V::Target>,
)
    ensures
        (m.model() == <HashMap<K, V> as Sealable>::sealed_model(t)) <==> (m@.dom().len()
            == t@.dom().len() && (forall|k: K|
            #[trigger] m@.contains_key(k) ==> t@.contains_key(k) && m@[k].model()
                == V::sealed_model(t@[k]))),
{
    broadcast use vstd::std_specs::hash::axiom_hashmap_view_finite_dom;

    let m1 = m.model();
    let m2 = <HashMap<K, V> as Sealable>::sealed_model(t);
    if m1 == m2 {
        assert(m1.dom() == m@.dom());
        assert(m2.dom() == t@.dom());
        assert forall|k: K| #[trigger] m@.contains_key(k) implies t@.contains_key(k) && m@[k].model()
            == V::sealed_model(t@[k]) by {
            assert(m1[k] == m2[k]);
        }
    }
    if m@.dom().len() == t@.dom().len() && (forall|k: K|
        #[trigger] m@.contains_key(k) ==> t@.contains_key(k) && m@[k].model() == V::sealed_model(
            t@[k],
        )) {
        assert(m@.dom().subset_of(t@.dom()));
        vstd::set_lib::lemma_len_subset(m@.dom(), t@.dom());
        vstd::set_lib::lemma_subset_equality(m@.dom(), t@.dom());
        assert(m1 =~= m2);
    }
}

/// Container propagation: an empty sequence or an absent optional is
/// trivially valid, so sealing it is owed success, while a collection
/// containing one invalid element is invalid, so sealing it is owed
/// failure.
pub proof fn lemma_container_propagation<T: Sealable>(v: Vec<T>, o: Option<T>, i: int)
    ensures
        v@.len() == 0 ==> v.is_valid(),
        o is None ==> o.is_valid(),
        0 <= i < v@.len() && !v@[i].is_valid() ==> !v.is_valid(),
{
}

/// Taking one more element of a sequence adds exactly that element to the
/// set of elements taken so far.
proof fn lemma_take_push_to_set<A>(s: Seq<A>, i: int)
    requires
        0 <= i < s.len(),
    ensures
        s.take(i + 1).to_set() == s.take(i).to_set().insert(s[i]),
{
    assert forall|x: A| #[trigger] s.take(i + 1).to_set().contains(x) implies s.take(
        i,
    ).to_set().insert(s[i]).contains(x) by {
        let j = choose|j: int| 0 <= j < i + 1 && #[trigger] s.take(i + 1)[j] == x;
        if j < i {
            assert(s.take(i)[j] == x);
            assert(s.take(i).contains(x));
        } else {
            assert(x == s[i]);
        }
    }
    assert forall|x: A| s.take(i).to_set().insert(s[i]).contains(x) implies #[trigger] s.take(
        i + 1,
    ).to_set().contains(x) by {
        if x == s[i] {
            assert(s.take(i + 1)[i] == x);
            assert(s.take(i + 1).contains(x));
        } else {
            let j = choose|j: int| 0 <= j < i && #[trigger] s.take(i)[j] == x;
            assert(s.take(i + 1)[j] == x);
            assert(s.take(i + 1).contains(x));
        }
    }
    assert(s.take(i + 1).to_set() =~= s.take(i).to_set().insert(s[i]));
}

/// Collects a map's keys into a vector: distinct keys that together cover
/// exactly the map's domain.
fn hash_map_keys<K: SealableKey, V>(m: &HashMap<K, V>) -> (keys: Vec<K>)
    ensures
        keys@.no_duplicates(),
        keys@.len() == m@.dom().len(),
        forall|j: int| 0 <= j < keys@.len() ==> m@.dom().contains(#[trigger] keys@[j]),
        forall|k: K| m@.dom().contains(k) ==> #[trigger] keys@.to_set().contains(k),
{
    proof {
        K::key_properties();
    }
    let mut keys: Vec<K> = Vec::new();
    for k in it: m.keys()
        invariant
            vstd::std_specs::hash::obeys_key_model::<K>(),
            it.seq().unref().to_set() == m@.dom(),
            it.seq().no_duplicates(),
            it.seq().len() == m@.dom().len(),
            keys@.len() == it.index(),
            forall|j: int| 0 <= j < it.index() ==> keys@[j] == *(#[trigger] it.seq()[j]),
            keys@.no_duplicates(),
            forall|j: int| 0 <= j < keys@.len() ==> m@.dom().contains(#[trigger] keys@[j]),
    {
        keys.push(*k);
        proof {
            assert(keys@[keys@.len() - 1] == *(it.seq()[it.index()]));
            assert(m@.dom().contains(keys@[keys@.len() - 1])) by {
                assert(it.seq().unref()[it.index()] == *(it.seq()[it.index()]));
                assert(it.seq().unref().to_set().contains(it.seq().unref()[it.index()]));
            }
            assert(keys@.no_duplicates()) by {
                assert forall|j1: int, j2: int|
                    0 <= j1 < j2 < keys@.len() implies keys@[j1] != keys@[j2] by {
                    if keys@[j1] == keys@[j2] {
                        assert(it.seq()[j1] == it.seq()[j2]);
                    }
                }
            }
        }
    }
    proof {
        keys@.unique_seq_to_set();
        assert(keys@.to_set().subset_of(m@.dom()));
        assert(m@.dom().finite());
        vstd::set_lib::lemma_subset_equality(keys@.to_set(), m@.dom());
        assert forall|k: K| m@.dom().contains(k) implies #[trigger] keys@.to_set().contains(k) by {
            assert(keys@.to_set() =~= m@.dom());
        }
    }
    keys
}

impl<K: SealableKey, V: Sealable> Sealable for HashMap<K, V> {
    type Target = HashMap<K, V::Target>;

    type Model = Map<K, V::Model>;

    open spec fn model(self) -> Map<K, V::Model> {
        self@.map_values(|v: V| v.model())
    }

    open spec fn sealed_model(sealed: HashMap<K, V::Target>) -> Map<K, V::Model> {
        sealed@.map_values(|v: V::Target| V::sealed_model(v))
    }

    open spec fn is_valid(self) -> bool {
        forall|k: K| #[trigger] self@.contains_key(k) ==> self@[k].is_valid()
    }

    /// Seals key and value of every entry via `combine`, accumulating the
    /// failures of every invalid entry.
    fn seal(self) -> (r: Result<HashMap<K, V::Target>, ValidationErrors>) {
        let ghost orig = self@;
        let keys = hash_map_keys(&self);
        let ghost kseq = keys@;
        let mut m = self;
        let mut out: HashMap<K, V::Target> = HashMap::new();
        let mut failures: Option<ValidationErrors> = None;
        let n = keys.len();
        let mut i: usize = 0;
        while i < n
            invariant
                n == keys.len(),
                keys@ == kseq,
                kseq.no_duplicates(),
                kseq.len() == orig.dom().len(),
                forall|j: int| 0 <= j < kseq.len() ==> orig.dom().contains(#[trigger] kseq[j]),
                forall|k: K| orig.dom().contains(k) ==> #[trigger] kseq.to_set().contains(k),
                i <= n,
                m@ == orig.remove_keys(kseq.take(i as int).to_set()),
                failures is None ==> out@.dom() == kseq.take(i as int).to_set(),
                failures is None ==> forall|j: int|
                    0 <= j < i ==> V::sealed_model(#[trigger] out@[kseq[j]]) == orig[kseq[j]].model(),
                failures is None ==> forall|j: int|
                    0 <= j < i ==> (#[trigger] orig[kseq[j]]).is_valid(),
                failures is Some ==> failures->0@.len() > 0,
                failures is Some ==> exists|k: K|
                    #[trigger] orig.dom().contains(k) && !orig[k].is_valid(),
            decreases n - i,
        {
            proof {
                K::key_properties();
            }
            let k = keys[i];
            proof {
                assert(!kseq.take(i as int).to_set().contains(k)) by {
                    if kseq.take(i as int).contains(k) {
                        let j = choose|j: int| 0 <= j < i && kseq.take(i as int)[j] == k;
                        assert(kseq[j] == kseq[i as int]);
                    }
                }
                assert(m@.contains_key(k));
            }
            let ghost prev = m@;
            match m.remove(&k) {
                Some(v) => {
                    proof {
                        assert(v == prev[k]);
                        assert(v == orig[k]);
                        lemma_take_push_to_set(kseq, i as int);
                        assert(m@ =~= orig.remove_keys(kseq.take(i as int + 1).to_set()));
                    }
                    match k.seal().combine(v.seal()) {
                        Ok((k2, t)) => {
                            proof {
                                assert(k2 == k);
                            }
                            out.insert(k2, t);
                        },
                        Err(errs) => {
                            proof {
                                assert(!orig[k].is_valid());
                                assert(orig.dom().contains(k));
                            }
                            let acc = match failures {
                                None => errs,
                                Some(prev_errs) => prev_errs.combine_with(errs),
                            };
                            failures = Some(acc);
                        },
                    }
                },
                None => {
                    proof {
                        assert(false);
                    }
                },
            }
            i += 1;
        }
        proof {
            K::key_properties();
            assert(kseq.take(n as int) =~= kseq);
        }
        match failures {
            None => {
                proof {
                    assert forall|k: K| orig.dom().contains(k) implies #[trigger] out@.contains_key(
                        k,
                    ) && V::sealed_model(out@[k]) == orig[k].model() && orig[k].is_valid() by {
                        assert(kseq.to_set().contains(k));
                        let j = choose|j: int| 0 <= j < kseq.len() && kseq[j] == k;
                        assert(V::sealed_model(out@[kseq[j]]) == orig[kseq[j]].model());
                        assert(orig[kseq[j]].is_valid());
                    }
                    assert(Self::sealed_model(out) =~= orig.map_values(|v: V| v.model()));
                    assert forall|k: K| #[trigger] orig.contains_key(k) implies orig[k].is_valid() by {
                        assert(orig.dom().contains(k));
                        assert(out@.contains_key(k));
                    }
                }
                Ok(out)
            },
            Some(errs) => {
                proof {
                    let k0 = choose|k: K| #[trigger] orig.dom().contains(k) && !orig[k].is_valid();
                    assert(orig.contains_key(k0));
                }
                Err(errs)
            },
        }
    }

    fn open(sealed: HashMap<K, V::Target>) -> (r: HashMap<K, V>) {
        let ghost orig = sealed@;
        let keys = hash_map_keys(&sealed);
        let ghost kseq = keys@;
        let mut m = sealed;
        let mut out: HashMap<K, V> = HashMap::new();
        let n = keys.len();
        let mut i: usize = 0;
        while i < n
            invariant
                n == keys.len(),
                keys@ == kseq,
                kseq.no_duplicates(),
                kseq.len() == orig.dom().len(),
                forall|j: int| 0 <= j < kseq.len() ==> orig.dom().contains(#[trigger] kseq[j]),
                forall|k: K| orig.dom().contains(k) ==> #[trigger] kseq.to_set().contains(k),
                i <= n,
                m@ == orig.remove_keys(kseq.take(i as int).to_set()),
                out@.dom() == kseq.take(i as int).to_set(),
                forall|j: int|
                    0 <= j < i ==> (#[trigger] out@[kseq[j]]).model() == V::sealed_model(
                        orig[kseq[j]],
                    ),
            decreases n - i,
        {
            proof {
                K::key_properties();
            }
            let k = keys[i];
            proof {
                assert(!kseq.take(i as int).to_set().contains(k)) by {
                    if kseq.take(i as int).contains(k) {
                        let j = choose|j: int| 0 <= j < i && kseq.take(i as int)[j] == k;
                        assert(kseq[j] == kseq[i as int]);
                    }
                }
                assert(m@.contains_key(k));
            }
            let ghost prev = m@;
            match m.remove(&k) {
                Some(v) => {
                    proof {
                        assert(v == prev[k]);
                        assert(v == orig[k]);
                        lemma_take_push_to_set(kseq, i as int);
                        assert(m@ =~= orig.remove_keys(kseq.take(i as int + 1).to_set()));
                    }
                    out.insert(k, V::open(v));
                },
                None => {
                    proof {
                        assert(false);
                    }
                },
            }
            i += 1;
        }
        proof {
            K::key_properties();
            assert(kseq.take(n as int) =~= kseq);
            assert forall|k: K| orig.dom().contains(k) implies #[trigger] out@.contains_key(k) && (
            out@[k]).model() == V::sealed_model(orig[k]) by {
                assert(kseq.to_set().contains(k));
                let j = choose|j: int| 0 <= j < kseq.len() && kseq[j] == k;
                assert((out@[kseq[j]]).model() == V::sealed_model(orig[kseq[j]]));
            }
            assert(out.model() =~= Self::sealed_model(sealed));
        }
        out
    }

    /// A length mismatch short-circuits to false; otherwise every raw
    /// entry's key must exist on the sealed side with a structurally equal
    /// value.  Order is irrelevant.
    fn partial_eq(&self, other: &HashMap<K, V::Target>) -> (r: bool) {
        proof {
            K::key_properties();
        }
        let ghost m1 = (*self).model();
        let ghost m2 = Self::sealed_model(*other);
        if self.len() != other.len() {
            proof {
                if m1 == m2 {
                    assert(m1.dom() == self@.dom());
                    assert(m2.dom() == other@.dom());
                }
            }
            return false;
        }
        for pair in it: self.iter()
            invariant
                vstd::std_specs::hash::obeys_key_model::<K>(),
                m1 == (*self).model(),
                m2 == Self::sealed_model(*other),
                self@.dom().len() == other@.dom().len(),
                it.seq().len() == self@.dom().len(),
                forall|j: int|
                    0 <= j < it.seq().len() ==> self@.contains_key(
                        *(#[trigger] it.seq()[j]).0,
                    ) && self@[*it.seq()[j].0] == *it.seq()[j].1,
                forall|k: K| #[trigger] self@.contains_key(k) ==> it.seq().contains(
                    (&k, &self@[k]),
                ),
                forall|j: int|
                    0 <= j < it.index() ==> other@.contains_key(*(#[trigger] it.seq()[j]).0) && (
                    *it.seq()[j].1).model() == V::sealed_model(other@[*it.seq()[j].0]),
        {
            proof {
                K::key_properties();
            }
            let (k, v) = pair;
            match other.get(k) {
                Some(w) => {
                    if !v.partial_eq(w) {
                        proof {
                            assert(self@.contains_key(*k));
                            assert(m1[*k] != m2[*k]);
                        }
                        return false;
                    }
                },
                None => {
                    proof {
                        assert(self@.contains_key(*k));
                        if m1 == m2 {
                            assert(m1.dom() == self@.dom());
                            assert(m2.dom() == other@.dom());
                        }
                    }
                    return false;
                },
            }
        }
        proof {
            assert forall|k: K| self@.contains_key(k) implies #[trigger] other@.contains_key(k)
                && (self@[k]).model() == V::sealed_model(other@[k]) by {}
            assert(self@.dom().subset_of(other@.dom()));
            vstd::set_lib::lemma_len_subset(self@.dom(), other@.dom());
            vstd::set_lib::lemma_subset_equality(self@.dom(), other@.dom());
            assert(m1 =~= m2);
        }
        true
    }
}

impl<T: SealableKey> Sealable for HashSet<T> {
    type Target = HashSet<T>;

    type Model = Set<T>;

    open spec fn model(self) -> Set<T> {
        self@
    }

    open spec fn sealed_model(sealed: HashSet<T>) -> Set<T> {
        sealed@
    }

    open spec fn is_valid(self) -> bool {
        true
    }

    /// Set elements seal to themselves, so sealing a set is the identity
    /// and can never fail.
    fn seal(self) -> (r: Result<HashSet<T>, ValidationErrors>) {
        Ok(self)
    }

    fn open(sealed: HashSet<T>) -> (r: HashSet<T>) {
        sealed
    }

    /// A length mismatch short-circuits to false; otherwise every raw
    /// element must be a member of the sealed side.  Order is irrelevant.
    fn partial_eq(&self, other: &HashSet<T>) -> (r: bool) {
        proof {
            T::key_properties();
            broadcast use vstd::seq_lib::seq_to_set_is_finite;

            assert(self@ == vstd::std_specs::hash::spec_hash_keys_iter(
                self,
            ).remaining().unref().to_set());
            assert(other@ == vstd::std_specs::hash::spec_hash_keys_iter(
                other,
            ).remaining().unref().to_set());
            assert(self@.finite());
            assert(other@.finite());
        }
        if self.len() != other.len() {
            return false;
        }
        for x in it: self.iter()
            invariant
                vstd::std_specs::hash::obeys_key_model::<T>(),
                self@.finite(),
                other@.finite(),
                self@.len() == other@.len(),
                it.seq().unref().to_set() == self@,
                it.seq().len() == self@.len(),
                forall|j: int|
                    0 <= j < it.index() ==> other@.contains(#[trigger] it.seq().unref()[j]),
        {
            proof {
                T::key_properties();
                assert(it.seq().unref()[it.index()] == *x);
                assert(self@.contains(it.seq().unref()[it.index()]));
            }
            if !other.contains(x) {
                return false;
            }
        }
        proof {
            assert forall|y: T| self@.contains(y) implies other@.contains(y) by {}
            assert(self@.subset_of(other@));
            vstd::set_lib::lemma_subset_equality(self@, other@);
        }
        true
    }
}

impl SealableKey for bool {
    proof fn key_properties() {
        broadcast use vstd::std_specs::hash::axiom_bool_obeys_hash_table_key_model;
    }
}

impl SealableKey for u8 {
    proof fn key_properties() {
        broadcast use vstd::std_specs::hash::axiom_u8_obeys_hash_table_key_model;
    }
}

impl SealableKey for u16 {
    proof fn key_properties() {
        broadcast use vstd::std_specs::hash::axiom_u16_obeys_hash_table_key_model;
    }
}

impl SealableKey for u32 {
    proof fn key_properties() {
        broadcast use vstd::std_specs::hash::axiom_u32_obeys_hash_table_key_model;
    }
}

impl SealableKey for u64 {
    proof fn key_properties() {
        broadcast use vstd::std_specs::hash::axiom_u64_obeys_hash_table_key_model;
    }
}

impl SealableKey for u128 {
    proof fn key_properties() {
        broadcast use vstd::std_specs::hash::axiom_u128_obeys_hash_table_key_model;
    }
}

impl SealableKey for i8 {
    proof fn key_properties() {
        broadcast use vstd::std_specs::hash::axiom_i8_obeys_hash_table_key_model;
    }
}

impl SealableKey for i16 {
    proof fn key_properties() {
        broadcast use vstd::std_specs::hash::axiom_i16_obeys_hash_table_key_model;
    }
}

impl SealableKey for i32 {
    proof fn key_properties() {
        broadcast use vstd::std_specs::hash::axiom_i32_obeys_hash_table_key_model;
    }
}

impl SealableKey for i64 {
    proof fn key_properties() {
        broadcast use vstd::std_specs::hash::axiom_i64_obeys_hash_table_key_model;
    }
}

impl SealableKey for i128 {
    proof fn key_properties() {
        broadcast use vstd::std_specs::hash::axiom_i128_obeys_hash_table_key_model;
    }
}

impl SealableKey for usize {
    proof fn key_properties() {
        broadcast use vstd::std_specs::hash::axiom_usize_obeys_hash_table_key_model;
    }
}

impl SealableKey for isize {
    proof fn key_properties() {
        broadcast use vstd::std_specs::hash::axiom_isize_obeys_hash_table_key_model;
    }
}

} // verus!
