//! The error model: a single validation failure and an ordered collection
//! of failures.

use vstd::prelude::*;

verus! {

/// Mathematical model of a single validation failure: the field-path
/// segments it applies to (each a sequence of characters; the empty
/// segment denotes "this value itself") and a human-readable reason.
pub struct ValidationErrorView {
    pub fields: Seq<Seq<char>>,
    pub reason: Seq<char>,
}

/// A single validation failure: a human-readable `reason` together with the
/// field-path segments it applies to.  The empty segment stands for "this
/// value itself"; path prefixing later replaces it by the bare field name.
#[derive(Debug, PartialEq)]
pub struct ValidationError {
    fields: Vec<String>,
    pub reason: String,
}

impl View for ValidationError {
    type V = ValidationErrorView;

    closed spec fn view(&self) -> ValidationErrorView {
        ValidationErrorView { fields: self.fields.deep_view(), reason: self.reason@ }
    }
}

impl DeepView for ValidationError {
    type V = ValidationErrorView;

    open spec fn deep_view(&self) -> ValidationErrorView {
        self.view()
    }
}

impl ValidationError {
    /// A failure about the value itself: its single path segment is empty.
    pub fn new(reason: &str) -> (r: ValidationError)
        ensures
            r@.fields.len() == 1,
            r@.fields[0] == Seq::<char>::empty(),
            r@.reason == reason@,
    {
        let mut fields: Vec<String> = Vec::new();
        fields.push(String::new());
        ValidationError { fields, reason: reason.to_owned() }
    }

    /// A failure scoped to a single named field.
    pub fn on_field(field: &str, reason: &str) -> (r: ValidationError)
        ensures
            r@.fields.len() == 1,
            r@.fields[0] == field@,
            r@.reason == reason@,
    {
        let mut fields: Vec<String> = Vec::new();
        fields.push(field.to_owned());
        ValidationError { fields, reason: reason.to_owned() }
    }

    /// A failure scoped to one or more named fields.
    pub fn on_fields(first: &str, rest: Vec<String>, reason: &str) -> (r: ValidationError)
        ensures
            r@.fields == seq![first@] + rest.deep_view(),
            r@.reason == reason@,
    {
        let ghost rest0 = rest.deep_view();
        let mut fields: Vec<String> = Vec::new();
        fields.push(first.to_owned());
        let mut rest = rest;
        fields.append(&mut rest);
        let r = ValidationError { fields, reason: reason.to_owned() };
        proof {
            assert(r@.fields =~= seq![first@] + rest0);
        }
        r
    }

    /// The path segments of this failure, in order.
    pub fn iter_fields(&self) -> (r: &Vec<String>)
        ensures
            r.deep_view() == self@.fields,
    {
        &self.fields
    }
}

/// An ordered collection of validation failures.  Iteration order equals
/// insertion order; combining two collections concatenates them without
/// reordering, deduplicating or dropping anything.
#[derive(Debug, PartialEq)]
pub struct ValidationErrors(Vec<ValidationError>);

impl View for ValidationErrors {
    type V = Seq<ValidationErrorView>;

    closed spec fn view(&self) -> Seq<ValidationErrorView> {
        self.0.deep_view()
    }
}

impl ValidationErrors {
    /// The singleton collection.
    pub fn new(error: ValidationError) -> (r: ValidationErrors)
        ensures
            r@ == seq![error@],
    {
        let mut v: Vec<ValidationError> = Vec::new();
        v.push(error);
        let r = ValidationErrors(v);
        proof {
            assert(r@ =~= seq![error@]);
        }
        r
    }

    /// Appends `other`'s failures after this collection's own: the monoid
    /// operation of the error algebra.
    pub fn combine_with(self, other: ValidationErrors) -> (r: ValidationErrors)
        ensures
            r@ == self@ + other@,
    {
        let ValidationErrors(mut v) = self;
        let ValidationErrors(mut w) = other;
        v.append(&mut w);
        let r = ValidationErrors(v);
        proof {
            assert(r@ =~= self@ + other@);
        }
        r
    }

    /// Read-only access to the failures, in insertion order.
    pub fn iter(&self) -> (r: &Vec<ValidationError>)
        ensures
            r.deep_view() == self@,
    {
        &self.0
    }

    /// The failures themselves, in insertion order.
    pub fn into_vec(self) -> (r: Vec<ValidationError>)
        ensures
            r.deep_view() == self@,
    {
        self.0
    }

    /// How many failures are collected.
    pub fn len(&self) -> (n: usize)
        ensures
            n == self@.len(),
    {
        self.0.len()
    }

    /// An informational summary of the collected failures: the count,
    /// then the reasons grouped by field path in first-occurrence order,
    /// capped at five groups with an ellipsis marker for the rest.  The
    /// format is explicitly not a machine-readable serialization.
    pub fn summary(&self) -> (r: String)
        ensures
            r@ == summary_text(self@),
    {
        let mut s = "ValidationErrors(".to_owned();
        let count = dec_text(self.0.len());
        s.append(count.as_str());
        s.append("): {");
        let gs = group_all(&self.0);
        let ghost gsv = gs.deep_view();
        let total = gs.len();
        let shown: usize = if total <= 5 {
            total
        } else {
            5
        };
        let mut i: usize = 0;
        proof {
            assert(gsv.take(0) =~= Seq::<(Seq<char>, Seq<Seq<char>>)>::empty());
        }
        while i < shown
            invariant
                gs.deep_view() == gsv,
                total == gs.len(),
                shown <= total,
                i <= shown,
                s@ == "ValidationErrors("@ + dec_str(self@.len()) + "): {"@ + groups_text(
                    gsv.take(i as int),
                ),
            decreases shown - i,
        {
            if i > 0 {
                s.append(", ");
            }
            let pair = &gs[i];
            s.append(pair.0.as_str());
            s.append(": [");
            let reasons = reasons_render(&pair.1);
            s.append(reasons.as_str());
            s.append("]");
            proof {
                reveal_strlit(", ");
                reveal_strlit(": [");
                reveal_strlit("]");
                assert(gsv[i as int] == (pair.0@, pair.1.deep_view()));
                assert(gsv.take(i as int + 1).drop_last() =~= gsv.take(i as int));
                assert(gsv.take(i as int + 1).last() == gsv[i as int]);
                assert(group_text(gsv[i as int]) =~= pair.0@ + seq![':', ' ', '['] + reasons_text(
                    pair.1.deep_view(),
                ) + seq![']']);
                assert(s@ =~= "ValidationErrors("@ + dec_str(self@.len()) + "): {"@ + groups_text(
                    gsv.take(i as int + 1),
                ));
            }
            i += 1;
        }
        if total > 5 {
            s.append(", ...");
            proof {
                reveal_strlit(", ...");
                assert(s@ =~= "ValidationErrors("@ + dec_str(self@.len()) + "): {"@ + (groups_text(
                    gsv.take(5),
                ) + seq![',', ' ', '.', '.', '.']));
            }
        }
        s.append("}");
        proof {
            reveal_strlit("}");
            if total <= 5 {
                assert(gsv.take(shown as int) =~= gsv);
            }
            assert(s@ =~= summary_text(self@));
        }
        s
    }
}

impl Default for ValidationErrors {
    /// The empty collection: the identity of `combine_with`.
    fn default() -> (r: ValidationErrors)
        ensures
            r@ == Seq::<ValidationErrorView>::empty(),
    {
        let r = ValidationErrors(Vec::new());
        proof {
            assert(r@ =~= Seq::<ValidationErrorView>::empty());
        }
        r
    }
}

/// A path segment with `path` prefixed: the empty segment (which denotes
/// "this value itself") is replaced by the bare path, any other segment is
/// prefixed with the path and a joining dot.
pub open spec fn prefixed_segment(path: Seq<char>, seg: Seq<char>) -> Seq<char> {
    if seg.len() == 0 {
        path
    } else {
        path + seq!['.'] + seg
    }
}

/// A failure with `path` prefixed to every one of its path segments.
pub open spec fn prefixed_error(path: Seq<char>, e: ValidationErrorView) -> ValidationErrorView {
    ValidationErrorView {
        fields: e.fields.map_values(|seg: Seq<char>| prefixed_segment(path, seg)),
        reason: e.reason,
    }
}

/// A collection of failures with `path` prefixed to every path segment of
/// every failure, order untouched.
pub open spec fn prefixed_errors(path: Seq<char>, es: Seq<ValidationErrorView>) -> Seq<
    ValidationErrorView,
> {
    es.map_values(|e: ValidationErrorView| prefixed_error(path, e))
}

impl ValidationError {
    /// Prefixes `path` to every path segment of this failure.
    pub(crate) fn prefix_segments(&self, path: &str) -> (r: ValidationError)
        ensures
            r@ == prefixed_error(path@, self@),
    {
        let n = self.fields.len();
        let mut out: Vec<String> = Vec::new();
        for i in 0..n
            invariant
                n == self.fields.len(),
                out.deep_view().len() == i,
                forall|j: int|
                    0 <= j < i ==> out.deep_view()[j] == prefixed_segment(
                        path@,
                        self.fields.deep_view()[j],
                    ),
        {
            let f = &self.fields[i];
            let s = if f.as_str().is_empty() {
                path.to_owned()
            } else {
                let mut s = path.to_owned();
                s.append(".");
                s.append(f.as_str());
                proof {
                    reveal_strlit(".");
                    assert(s@ =~= path@ + seq!['.'] + f@);
                }
                s
            };
            let ghost prev = out.deep_view();
            out.push(s);
            proof {
                assert forall|j: int| 0 <= j < i + 1 implies out.deep_view()[j]
                    == prefixed_segment(path@, self.fields.deep_view()[j]) by {
                    if j < i {
                        assert(out.deep_view()[j] == prev[j]);
                    } else {
                        assert(out.deep_view()[j] == s@);
                    }
                }
            }
        }
        let r = ValidationError { fields: out, reason: self.reason.clone() };
        proof {
            assert(r@.fields =~= prefixed_error(path@, self@).fields);
        }
        r
    }
}

impl ValidationErrors {
    /// Prefixes `path` to every path segment of every collected failure.
    pub(crate) fn prefix_all(self, path: &str) -> (r: ValidationErrors)
        ensures
            r@ == prefixed_errors(path@, self@),
    {
        let ghost es = self@;
        let v = self.into_vec();
        let n = v.len();
        let mut out: Vec<ValidationError> = Vec::new();
        for i in 0..n
            invariant
                n == v.len(),
                v.deep_view() == es,
                out.deep_view().len() == i,
                forall|j: int|
                    0 <= j < i ==> out.deep_view()[j] == prefixed_error(path@, es[j]),
        {
            proof {
                assert(v.deep_view()[i as int] == es[i as int]);
            }
            let e = v[i].prefix_segments(path);
            let ghost prev = out.deep_view();
            out.push(e);
            proof {
                assert forall|j: int| 0 <= j < i + 1 implies out.deep_view()[j]
                    == prefixed_error(path@, es[j]) by {
                    if j < i {
                        assert(out.deep_view()[j] == prev[j]);
                    } else {
                        assert(out.deep_view()[j] == e@);
                    }
                }
            }
        }
        let r = ValidationErrors(out);
        proof {
            assert(r@ =~= prefixed_errors(path@, es));
        }
        r
    }
}

impl From<ValidationError> for ValidationErrors {
    /// The singleton collection, as a conversion.
    fn from(error: ValidationError) -> (r: ValidationErrors)
        ensures
            r@ == seq![error@],
    {
        ValidationErrors::new(error)
    }
}

impl vstd::std_specs::convert::FromSpecImpl<ValidationError> for ValidationErrors {
    open spec fn obeys_from_spec() -> bool {
        false
    }

    closed spec fn from_spec(error: ValidationError) -> ValidationErrors {
        choose|r: ValidationErrors| r@ == seq![error@]
    }
}

/// The decimal digit character for a value below ten.
pub open spec fn dec_digit(d: nat) -> char {
    if d == 0 {
        '0'
    } else if d == 1 {
        '1'
    } else if d == 2 {
        '2'
    } else if d == 3 {
        '3'
    } else if d == 4 {
        '4'
    } else if d == 5 {
        '5'
    } else if d == 6 {
        '6'
    } else if d == 7 {
        '7'
    } else if d == 8 {
        '8'
    } else {
        '9'
    }
}

/// The decimal rendering of a natural number, most significant digit
/// first.
pub open spec fn dec_str(n: nat) -> Seq<char>
    decreases n,
{
    if n < 10 {
        seq![dec_digit(n)]
    } else {
        dec_str(n / 10).push(dec_digit(n % 10))
    }
}

/// The index of the group carrying field name `f`, or -1 if there is
/// none.
pub open spec fn find_group(gs: Seq<(Seq<char>, Seq<Seq<char>>)>, f: Seq<char>) -> int
    decreases gs.len(),
{
    if gs.len() == 0 {
        -1
    } else if gs[0].0 == f {
        0
    } else {
        let r = find_group(gs.drop_first(), f);
        if r == -1 {
            -1
        } else {
            r + 1
        }
    }
}

/// Files one reason under one field name: appended to the field's
/// existing group, or opening a new group at the end.
pub open spec fn add_reason(
    gs: Seq<(Seq<char>, Seq<Seq<char>>)>,
    f: Seq<char>,
    reason: Seq<char>,
) -> Seq<(Seq<char>, Seq<Seq<char>>)> {
    let i = find_group(gs, f);
    if i == -1 {
        gs.push((f, seq![reason]))
    } else {
        gs.update(i, (gs[i].0, gs[i].1.push(reason)))
    }
}

/// Files one failure's reason under each of its field names, in order.
pub open spec fn add_error(gs: Seq<(Seq<char>, Seq<Seq<char>>)>, e: ValidationErrorView) -> Seq<
    (Seq<char>, Seq<Seq<char>>),
>
    decreases e.fields.len(),
{
    if e.fields.len() == 0 {
        gs
    } else {
        add_reason(
            add_error(gs, ValidationErrorView { fields: e.fields.drop_last(), ..e }),
            e.fields.last(),
            e.reason,
        )
    }
}

/// Groups failures by field name, in first-occurrence order: each group
/// carries the reasons filed under its field, in insertion order.
pub open spec fn grouped(es: Seq<ValidationErrorView>) -> Seq<(Seq<char>, Seq<Seq<char>>)>
    decreases es.len(),
{
    if es.len() == 0 {
        Seq::<(Seq<char>, Seq<Seq<char>>)>::empty()
    } else {
        add_error(grouped(es.drop_last()), es.last())
    }
}

/// A reason between double quotes.  Reasons are rendered verbatim: the
/// summary is informational, not machine-parseable.
pub open spec fn quoted(r: Seq<char>) -> Seq<char> {
    seq!['"'] + r + seq!['"']
}

/// Comma-separated quoted reasons.
pub open spec fn reasons_text(rs: Seq<Seq<char>>) -> Seq<char>
    decreases rs.len(),
{
    if rs.len() == 0 {
        Seq::<char>::empty()
    } else if rs.len() == 1 {
        quoted(rs[0])
    } else {
        reasons_text(rs.drop_last()) + seq![',', ' '] + quoted(rs.last())
    }
}

/// One group: the field name, a colon, and its bracketed reasons.
pub open spec fn group_text(g: (Seq<char>, Seq<Seq<char>>)) -> Seq<char> {
    g.0 + seq![':', ' ', '['] + reasons_text(g.1) + seq![']']
}

/// Comma-separated groups.
pub open spec fn groups_text(gs: Seq<(Seq<char>, Seq<Seq<char>>)>) -> Seq<char>
    decreases gs.len(),
{
    if gs.len() == 0 {
        Seq::<char>::empty()
    } else if gs.len() == 1 {
        group_text(gs[0])
    } else {
        groups_text(gs.drop_last()) + seq![',', ' '] + group_text(gs.last())
    }
}

/// The whole summary line: the failure count, then up to five groups of
/// reasons by field path, and an ellipsis marker if more groups exist.
pub open spec fn summary_text(es: Seq<ValidationErrorView>) -> Seq<char> {
    let gs = grouped(es);
    let shown = if gs.len() <= 5 {
        groups_text(gs)
    } else {
        groups_text(gs.take(5)) + seq![',', ' ', '.', '.', '.']
    };
    "ValidationErrors("@ + dec_str(es.len()) + "): {"@ + shown + seq!['}']
}

/// No group carries `f` if no prefix entry does.
proof fn lemma_find_group_none(gs: Seq<(Seq<char>, Seq<Seq<char>>)>, f: Seq<char>)
    requires
        forall|m: int| 0 <= m < gs.len() ==> (#[trigger] gs[m]).0 != f,
    ensures
        find_group(gs, f) == -1,
    decreases gs.len(),
{
    if gs.len() > 0 {
        lemma_find_group_none(gs.drop_first(), f);
    }
}

/// The first entry carrying `f` is the one `find_group` names.
proof fn lemma_find_group_at(gs: Seq<(Seq<char>, Seq<Seq<char>>)>, f: Seq<char>, i: int)
    requires
        0 <= i < gs.len(),
        gs[i].0 == f,
        forall|m: int| 0 <= m < i ==> (#[trigger] gs[m]).0 != f,
    ensures
        find_group(gs, f) == i,
    decreases i,
{
    if i > 0 {
        lemma_find_group_at(gs.drop_first(), f, i - 1);
    }
}

/// Renders one digit.
fn digit_text(d: usize) -> (r: &'static str)
    requires
        d < 10,
    ensures
        r@ == seq![dec_digit(d as nat)],
{
    let s: &'static str = match d {
        0 => "0",
        1 => "1",
        2 => "2",
        3 => "3",
        4 => "4",
        5 => "5",
        6 => "6",
        7 => "7",
        8 => "8",
        _ => "9",
    };
    proof {
        reveal_strlit("0");
        reveal_strlit("1");
        reveal_strlit("2");
        reveal_strlit("3");
        reveal_strlit("4");
        reveal_strlit("5");
        reveal_strlit("6");
        reveal_strlit("7");
        reveal_strlit("8");
        reveal_strlit("9");
        assert(s@ =~= seq![dec_digit(d as nat)]);
    }
    s
}

/// Renders a number in decimal.
fn dec_text(n: usize) -> (r: String)
    ensures
        r@ == dec_str(n as nat),
    decreases n,
{
    if n < 10 {
        digit_text(n).to_owned()
    } else {
        let mut s = dec_text(n / 10);
        s.append(digit_text(n % 10));
        proof {
            assert(s@ =~= dec_str(n as nat));
        }
        s
    }
}

/// Groups failures by field name in first-occurrence order.
fn group_all(errors: &Vec<ValidationError>) -> (gs: Vec<(String, Vec<String>)>)
    ensures
        gs.deep_view() == grouped(errors.deep_view()),
{
    let mut gs: Vec<(String, Vec<String>)> = Vec::new();
    let n = errors.len();
    let mut i: usize = 0;
    while i < n
        invariant
            n == errors.len(),
            i <= n,
            gs.deep_view() == grouped(errors.deep_view().take(i as int)),
        decreases n - i,
    {
        let e = &errors[i];
        let m = e.fields.len();
        let mut j: usize = 0;
        proof {
            assert(e.fields.deep_view().take(0) =~= Seq::<Seq<char>>::empty());
        }
        while j < m
            invariant
                n == errors.len(),
                i < n,
                e == &errors[i as int],
                m == e.fields.len(),
                j <= m,
                gs.deep_view() == add_error(
                    grouped(errors.deep_view().take(i as int)),
                    ValidationErrorView { fields: e@.fields.take(j as int), reason: e@.reason },
                ),
            decreases m - j,
        {
            let f = &e.fields[j];
            let ghost gsv = gs.deep_view();
            let glen = gs.len();
            let mut idx: usize = 0;
            let mut found: bool = false;
            while idx < glen && !found
                invariant
                    glen == gs.len(),
                    gs.deep_view() == gsv,
                    idx <= glen,
                    forall|m2: int| 0 <= m2 < idx ==> (#[trigger] gsv[m2]).0 != f@,
                    found ==> idx < glen && gsv[idx as int].0 == f@,
                decreases glen - idx, (if found {
                    0int
                } else {
                    1int
                }),
            {
                let pair = &gs[idx];
                proof {
                    assert(gsv[idx as int] == (pair.0@, pair.1.deep_view()));
                }
                if pair.0.eq(f) {
                    found = true;
                } else {
                    idx += 1;
                }
            }
            let ghost prev = add_error(
                grouped(errors.deep_view().take(i as int)),
                ValidationErrorView { fields: e@.fields.take(j as int), reason: e@.reason },
            );
            if found {
                proof {
                    lemma_find_group_at(gsv, f@, idx as int);
                }
                let mut pair = gs.remove(idx);
                pair.1.push(e.reason.clone());
                gs.insert(idx, pair);
                proof {
                    assert(gs.deep_view() =~~= add_reason(prev, f@, e@.reason));
                }
            } else {
                proof {
                    lemma_find_group_none(gsv, f@);
                }
                let mut reasons: Vec<String> = Vec::new();
                reasons.push(e.reason.clone());
                gs.push((f.clone(), reasons));
                proof {
                    assert(gs.deep_view() =~~= add_reason(prev, f@, e@.reason));
                }
            }
            proof {
                assert(e@.fields.take(j as int + 1).drop_last() =~= e@.fields.take(j as int));
                assert(e@.fields.take(j as int + 1).last() == f@);
            }
            j += 1;
        }
        proof {
            assert(e@.fields.take(m as int) =~= e@.fields);
            assert((ValidationErrorView { fields: e@.fields.take(m as int), reason: e@.reason })
                == e@);
            assert(errors.deep_view().take(i as int + 1).drop_last() =~= errors.deep_view().take(
                i as int,
            ));
            assert(errors.deep_view().take(i as int + 1).last() == e@);
        }
        i += 1;
    }
    proof {
        assert(errors.deep_view().take(n as int) =~= errors.deep_view());
    }
    gs
}

/// Renders a group's reasons, comma-separated and quoted.
fn reasons_render(rs: &Vec<String>) -> (r: String)
    ensures
        r@ == reasons_text(rs.deep_view()),
{
    let mut s = String::new();
    let n = rs.len();
    let mut i: usize = 0;
    proof {
        assert(rs.deep_view().take(0) =~= Seq::<Seq<char>>::empty());
    }
    while i < n
        invariant
            n == rs.len(),
            i <= n,
            s@ == reasons_text(rs.deep_view().take(i as int)),
        decreases n - i,
    {
        if i > 0 {
            s.append(", ");
        }
        s.append("\"");
        s.append(rs[i].as_str());
        s.append("\"");
        proof {
            reveal_strlit(", ");
            reveal_strlit("\"");
            assert(rs.deep_view().take(i as int + 1).drop_last() =~= rs.deep_view().take(i as int));
            assert(rs.deep_view().take(i as int + 1).last() == rs.deep_view()[i as int]);
            assert(s@ =~= reasons_text(rs.deep_view().take(i as int + 1)));
        }
        i += 1;
    }
    proof {
        assert(rs.deep_view().take(n as int) =~= rs.deep_view());
    }
    s
}

/// `ValidationErrors` under `combine_with` forms a monoid: combining is
/// associative and the empty collection is a left and right identity.
pub proof fn lemma_combine_with_monoid(a: ValidationErrors, b: ValidationErrors, c: ValidationErrors, e: ValidationErrors)
    requires
        e@ == Seq::<ValidationErrorView>::empty(),
    ensures
        (a@ + b@) + c@ == a@ + (b@ + c@),
        a@ + e@ == a@,
        e@ + a@ == a@,
{
    assert((a@ + b@) + c@ =~= a@ + (b@ + c@));
    assert(a@ + e@ =~= a@);
    assert(e@ + a@ =~= a@);
}

} // verus!
