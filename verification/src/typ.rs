//! Structural type representation: a graph of shared, mutable, possibly
//! recursive type aggregates.
//!
//! Aggregates live in an arena ([`TypeStore`]) and are addressed by stable
//! handles, so any number of type expressions may reference the same record
//! or union; extending the aggregate in place through one reference is
//! visible through every other, which is what lets a forward-declared record
//! be completed after it has been shared, and lets a record legally contain
//! a field of its own type. Type identity for such recursive structures is
//! handle identity; equality checks between two aggregates are nevertheless
//! structural over their field mapping, with handle identity only as the
//! self-compatibility fast path.
//!
//! Every record keeps a name→index mapping whose domain is exactly its set
//! of named fields and whose every index is in range; adding a field under
//! an existing name remaps that name to the new field, as a map insertion
//! would.

use vstd::prelude::*;
use vstd::string::StrSliceExecFns;

verus! {

/// Primitive natural type with an optional fixed bit width; an absent
/// width means unconstrained precision.
#[derive(Clone, Copy, Debug)]
pub struct Nat {
    pub width: Option<usize>,
}

/// Primitive types.
#[derive(Clone, Copy, Debug)]
pub enum PrimitiveType {
    Nat(Nat),
}

/// Stable handle of a record aggregate in a [`TypeStore`].
#[derive(Clone, Copy, Debug, PartialEq, Eq, Structural)]
pub struct RecordHandle {
    pub id: usize,
}

/// Stable handle of a union aggregate in a [`TypeStore`].
#[derive(Clone, Copy, Debug, PartialEq, Eq, Structural)]
pub struct UnionHandle {
    pub id: usize,
}

/// A type: a primitive, or a reference to a shared mutable aggregate.
/// Two types holding the same handle share one aggregate, and mutation of
/// that aggregate is visible through both.
#[derive(Clone, Copy, Debug)]
pub enum Type {
    Primitive(PrimitiveType),
    Record(RecordHandle),
    Union(UnionHandle),
}

/// Record aggregate: ordered member types plus a name→index mapping for
/// field resolution by name.
#[derive(Debug)]
pub struct RecordType {
    pub elems: Vec<Type>,
    pub names: Vec<(String, usize)>,
}

/// Union aggregate: ordered member types; members are matched by type
/// shape, not by name.
#[derive(Debug)]
pub struct UnionType {
    pub types: Vec<Type>,
}

/// Function type: a parameter record plus a result record — a function's
/// results, like its parameters, are uniformly a named aggregate.
#[derive(Debug)]
pub struct FuncType {
    pub params: RecordType,
    pub results: RecordType,
}

/// Marker wrapping a type that carries mutable run-time state: an opaque
/// marker to preserve, not to interpret.
#[derive(Clone, Copy, Debug)]
pub struct StateType {
    pub typ: Type,
}

/// Field resolution failure: an ordinary outcome the caller branches on.
#[derive(Clone, Copy, Debug, PartialEq, Eq, Structural)]
pub enum ResolveError {
    /// The record has no field of the requested name.
    FieldNotFound,
}

/// The index mapped to name `n` by an ordered name→index entry list: the
/// first entry carrying `n`, or `None` when no entry does. Under
/// [`record_wf`] entry names are unique, so the first entry is the only
/// one.
pub open spec fn lookup(names: Seq<(String, usize)>, n: Seq<char>) -> Option<int>
    decreases names.len(),
{
    if names.len() == 0 {
        None
    } else if names[0].0@ == n {
        Some(names[0].1 as int)
    } else {
        lookup(names.skip(1), n)
    }
}

/// Record invariant: every recorded index is in range, entry names are
/// unique, and entry indices are distinct (each named field has one name).
pub open spec fn record_wf(r: RecordType) -> bool {
    &&& (forall|k: int| 0 <= k < r.names.len() ==> (#[trigger] r.names[k]).1 < r.elems.len())
    &&& (forall|k: int, j: int|
        #![trigger r.names[k], r.names[j]]
        0 <= k < j < r.names.len() ==> r.names[k].0@ != r.names[j].0@)
    &&& (forall|k: int, j: int|
        #![trigger r.names[k], r.names[j]]
        0 <= k < j < r.names.len() ==> r.names[k].1 != r.names[j].1)
}

/// Whether member position `i` of a record carries a name.
pub open spec fn named_at(r: RecordType, i: int) -> bool {
    exists|k: int| 0 <= k < r.names.len() && (#[trigger] r.names[k]).1 == i
}

/// Structural equivalence of two record aggregates: same member count and,
/// independent of the order in which fields were declared, the same
/// name→member-type mapping; members at unnamed positions must agree
/// pointwise. Member types are compared as values, so nested aggregate
/// references agree exactly when they are the same handle — for recursive
/// structures handle identity is type identity.
pub open spec fn record_equiv(a: RecordType, b: RecordType) -> bool {
    &&& a.elems.len() == b.elems.len()
    &&& a.names.len() == b.names.len()
    &&& (forall|k: int|
        0 <= k < a.names.len() ==> (match lookup(b.names@, (#[trigger] a.names[k]).0@) {
            Some(j) => 0 <= j < b.elems.len() && b.elems[j] == a.elems[a.names[k].1 as int],
            None => false,
        }))
    &&& (forall|k: int|
        0 <= k < b.names.len() ==> lookup(a.names@, (#[trigger] b.names[k]).0@) is Some)
    &&& (forall|i: int| 0 <= i < a.elems.len() ==> (named_at(a, i) <==> named_at(b, i)))
    &&& (forall|i: int|
        0 <= i < a.elems.len() ==> (!named_at(a, i) ==> a.elems[i] == b.elems[i]))
}

/// Structural equivalence of two union aggregates: the same ordered member
/// types.
pub open spec fn union_equiv(a: UnionType, b: UnionType) -> bool {
    a.types@ == b.types@
}

/// Position of the last field named `n` in a field definition list, if
/// any; later fields shadow earlier ones of the same name, as a map
/// insertion would.
pub open spec fn fields_lookup(fs: Seq<(Option<String>, Type)>, n: Seq<char>) -> Option<int>
    decreases fs.len(),
{
    if fs.len() == 0 {
        None
    } else if fs.last().0 matches Some(s) && s@ == n {
        Some(fs.len() - 1)
    } else {
        fields_lookup(fs.drop_last(), n)
    }
}

/// Appending an entry resolves its own name only where no earlier entry
/// already does, and changes no other name.
proof fn lemma_lookup_push(s: Seq<(String, usize)>, e: (String, usize), n: Seq<char>)
    ensures
        lookup(s.push(e), n) == (if lookup(s, n) is Some {
            lookup(s, n)
        } else if e.0@ == n {
            Some(e.1 as int)
        } else {
            None::<int>
        }),
    decreases s.len(),
{
    if s.len() == 0 {
        assert(s.push(e).len() == 1);
        assert(s.push(e)[0] == e);
        assert(s.push(e).skip(1).len() == 0);
        assert(lookup(s.push(e).skip(1), n) is None);
    } else {
        assert(s.push(e)[0] == s[0]);
        assert(s.push(e).skip(1) =~= s.skip(1).push(e));
        lemma_lookup_push(s.skip(1), e, n);
    }
}

/// Overwriting the entry that carries a name remaps that name and changes
/// no other, provided no earlier entry carries the same name.
proof fn lemma_lookup_update(s: Seq<(String, usize)>, k: int, e: (String, usize), n: Seq<char>)
    requires
        0 <= k < s.len(),
        s[k].0@ == e.0@,
        forall|j: int| 0 <= j < k ==> (#[trigger] s[j]).0@ != e.0@,
    ensures
        lookup(s.update(k, e), n) == (if e.0@ == n {
            Some(e.1 as int)
        } else {
            lookup(s, n)
        }),
    decreases s.len(),
{
    let t = s.update(k, e);
    if k == 0 {
        assert(t[0] == e);
        assert(t.skip(1) =~= s.skip(1));
    } else {
        assert(t[0] == s[0]);
        assert(t.skip(1) =~= s.skip(1).update(k - 1, e));
        assert(forall|j: int| 0 <= j < k - 1 ==> (#[trigger] s.skip(1)[j]).0@ != e.0@);
        lemma_lookup_update(s.skip(1), k - 1, e, n);
    }
}

/// With unique entry names, the lookup of an entry's name finds exactly
/// that entry.
proof fn lemma_lookup_finds(s: Seq<(String, usize)>, k: int)
    requires
        0 <= k < s.len(),
        forall|j: int| 0 <= j < k ==> (#[trigger] s[j]).0@ != s[k].0@,
    ensures
        lookup(s, s[k].0@) == Some(s[k].1 as int),
    decreases k,
{
    if k > 0 {
        assert(forall|j: int| 0 <= j < k - 1 ==> (#[trigger] s.skip(1)[j]).0@ != s[k].0@);
        lemma_lookup_finds(s.skip(1), k - 1);
    }
}

/// A successful lookup names some entry.
proof fn lemma_lookup_entry(s: Seq<(String, usize)>, n: Seq<char>)
    requires
        lookup(s, n) is Some,
    ensures
        exists|k: int| 0 <= k < s.len() && (#[trigger] s[k]).0@ == n && s[k].1 as int == lookup(
            s,
            n,
        )->Some_0,
    decreases s.len(),
{
    if s[0].0@ == n {
        assert(s[0].0@ == n && s[0].1 as int == lookup(s, n)->Some_0);
    } else {
        lemma_lookup_entry(s.skip(1), n);
        let k = choose|k: int|
            0 <= k < s.skip(1).len() && (#[trigger] s.skip(1)[k]).0@ == n && s.skip(1)[k].1 as int
                == lookup(s.skip(1), n)->Some_0;
        assert(s[k + 1].0@ == n && s[k + 1].1 as int == lookup(s, n)->Some_0);
    }
}

/// No entry carrying a name means the name does not resolve.
proof fn lemma_lookup_none(s: Seq<(String, usize)>, n: Seq<char>)
    requires
        forall|j: int| 0 <= j < s.len() ==> (#[trigger] s[j]).0@ != n,
    ensures
        lookup(s, n) is None,
    decreases s.len(),
{
    if s.len() > 0 {
        assert(forall|j: int| 0 <= j < s.skip(1).len() ==> (#[trigger] s.skip(1)[j]).0@ != n);
        lemma_lookup_none(s.skip(1), n);
    }
}

/// Character-wise string comparison.
fn str_eq(a: &str, b: &str) -> (r: bool)
    ensures
        r == (a@ == b@),
{
    let n = a.unicode_len();
    if n != b.unicode_len() {
        assert(a@.len() != b@.len());
        return false;
    }
    let mut i: usize = 0;
    while i < n
        invariant
            i <= n,
            n == a@.len(),
            n == b@.len(),
            forall|j: int| 0 <= j < i ==> a@[j] == b@[j],
        decreases n - i,
    {
        if a.get_char(i) != b.get_char(i) {
            assert(a@[i as int] != b@[i as int]);
            return false;
        }
        i += 1;
    }
    assert(a@ =~= b@);
    true
}

/// Position of the first entry carrying a name, if any.
fn find_name(names: &Vec<(String, usize)>, n: &str) -> (r: Option<usize>)
    ensures
        r matches Some(p) ==> p < names.len() && names@[p as int].0@ == n@ && (forall|j: int|
            0 <= j < p ==> (#[trigger] names@[j]).0@ != n@),
        r is None ==> forall|j: int| 0 <= j < names.len() ==> (#[trigger] names@[j]).0@ != n@,
{
    let m = names.len();
    let mut k: usize = 0;
    while k < m
        invariant
            k <= m,
            m == names.len(),
            forall|j: int| 0 <= j < k ==> (#[trigger] names@[j]).0@ != n@,
        decreases m - k,
    {
        if str_eq(names[k].0.as_str(), n) {
            return Some(k);
        }
        k += 1;
    }
    None
}

/// Scan a name→index entry list for a name.
fn lookup_name(names: &Vec<(String, usize)>, n: &str) -> (r: Option<usize>)
    ensures
        r matches Some(i) ==> lookup(names@, n@) == Some(i as int),
        r is None ==> lookup(names@, n@) is None,
{
    let m = names.len();
    let mut k: usize = 0;
    assert(names@.skip(0) =~= names@);
    while k < m
        invariant
            k <= m,
            m == names.len(),
            lookup(names@, n@) == lookup(names@.skip(k as int), n@),
        decreases m - k,
    {
        let hit = str_eq(names[k].0.as_str(), n);
        proof {
            assert(names@.skip(k as int)[0] == names@[k as int]);
            assert(names@.skip(k as int).skip(1) =~= names@.skip(k as int + 1));
        }
        if hit {
            return Some(names[k].1);
        }
        k += 1;
    }
    assert(names@.skip(m as int).len() == 0);
    None
}

/// Whether member position `i` of a record carries a name.
fn named_index(r: &RecordType, i: usize) -> (b: bool)
    ensures
        b == named_at(*r, i as int),
{
    let m = r.names.len();
    let mut k: usize = 0;
    while k < m
        invariant
            k <= m,
            m == r.names.len(),
            forall|j: int| 0 <= j < k ==> (#[trigger] r.names[j]).1 != i,
        decreases m - k,
    {
        if r.names[k].1 == i {
            assert(named_at(*r, i as int));
            return true;
        }
        k += 1;
    }
    false
}

/// Value equality of two types: primitives agree by width, aggregate
/// references agree exactly when they are the same handle.
pub fn type_eq(a: &Type, b: &Type) -> (r: bool)
    ensures
        r == (*a == *b),
{
    match (a, b) {
        (Type::Primitive(PrimitiveType::Nat(x)), Type::Primitive(PrimitiveType::Nat(y))) => match (
            x.width,
            y.width,
        ) {
            (Some(wx), Some(wy)) => wx == wy,
            (None, None) => true,
            _ => false,
        },
        (Type::Record(h1), Type::Record(h2)) => h1.id == h2.id,
        (Type::Union(h1), Type::Union(h2)) => h1.id == h2.id,
        _ => false,
    }
}

/// Structural equality check of two record aggregate values.
pub fn record_value_eq(a: &RecordType, b: &RecordType) -> (r: bool)
    requires
        record_wf(*a),
        record_wf(*b),
    ensures
        r == record_equiv(*a, *b),
{
    if a.elems.len() != b.elems.len() {
        return false;
    }
    if a.names.len() != b.names.len() {
        return false;
    }
    let m = a.names.len();
    let mut k: usize = 0;
    while k < m
        invariant
            k <= m,
            m == a.names.len(),
            record_wf(*a),
            record_wf(*b),
            a.elems.len() == b.elems.len(),
            a.names.len() == b.names.len(),
            forall|j: int|
                0 <= j < k ==> (match lookup(b.names@, (#[trigger] a.names[j]).0@) {
                    Some(x) => 0 <= x < b.elems.len() && b.elems[x] == a.elems[a.names[j].1 as int],
                    None => false,
                }),
        decreases m - k,
    {
        let i = a.names[k].1;
        match lookup_name(&b.names, a.names[k].0.as_str()) {
            Some(j) => {
                proof {
                    lemma_lookup_entry(b.names@, a.names@[k as int].0@);
                }
                assert(j < b.elems.len());
                assert(i < a.elems.len());
                if !type_eq(&a.elems[i], &b.elems[j]) {
                    return false;
                }
            },
            None => {
                return false;
            },
        }
        k += 1;
    }
    let mut k2: usize = 0;
    while k2 < m
        invariant
            k2 <= m,
            m == b.names.len(),
            forall|j: int|
                0 <= j < k2 ==> lookup(a.names@, (#[trigger] b.names[j]).0@) is Some,
        decreases m - k2,
    {
        match lookup_name(&a.names, b.names[k2].0.as_str()) {
            Some(_) => {},
            None => {
                return false;
            },
        }
        k2 += 1;
    }
    let w = a.elems.len();
    let mut i: usize = 0;
    while i < w
        invariant
            i <= w,
            w == a.elems.len(),
            w == b.elems.len(),
            forall|j: int| 0 <= j < i ==> (named_at(*a, j) <==> named_at(*b, j)),
            forall|j: int| 0 <= j < i ==> (!named_at(*a, j) ==> a.elems[j] == b.elems[j]),
        decreases w - i,
    {
        let na = named_index(a, i);
        let nb = named_index(b, i);
        if na != nb {
            return false;
        }
        if !na {
            if !type_eq(&a.elems[i], &b.elems[i]) {
                return false;
            }
        }
        i += 1;
    }
    true
}

/// Every well-formed record aggregate is structurally equivalent to
/// itself: the handle-identity fast path agrees with the structural check.
pub proof fn lemma_record_equiv_refl(r: RecordType)
    requires
        record_wf(r),
    ensures
        record_equiv(r, r),
{
    assert forall|k: int| 0 <= k < r.names.len() implies (match lookup(
        r.names@,
        (#[trigger] r.names[k]).0@,
    ) {
        Some(j) => 0 <= j < r.elems.len() && r.elems[j] == r.elems[r.names[k].1 as int],
        None => false,
    }) by {
        assert(forall|j: int| 0 <= j < k ==> (#[trigger] r.names@[j]).0@ != r.names@[k].0@);
        lemma_lookup_finds(r.names@, k);
    }
}

/// The member type a record maps a field name to, if any.
pub open spec fn name_type(r: RecordType, n: Seq<char>) -> Option<Type> {
    match lookup(r.names@, n) {
        Some(i) => if 0 <= i < r.elems.len() {
            Some(r.elems[i])
        } else {
            None
        },
        None => None,
    }
}

/// Structural equality of record aggregates is order-independent over
/// field names: two well-formed, fully named records of the same width
/// are structurally equivalent as soon as their name→member-type mappings
/// agree, whatever order their fields were declared in. Declaration order
/// thus matters for display and diagnostics only, never for type
/// identity.
pub proof fn lemma_record_equiv_by_names(a: RecordType, b: RecordType)
    requires
        record_wf(a),
        record_wf(b),
        a.elems.len() == b.elems.len(),
        a.names.len() == b.names.len(),
        forall|i: int| 0 <= i < a.elems.len() ==> named_at(a, i),
        forall|i: int| 0 <= i < b.elems.len() ==> named_at(b, i),
        forall|n: Seq<char>| name_type(a, n) == name_type(b, n),
    ensures
        record_equiv(a, b),
{
    assert forall|k: int| 0 <= k < a.names.len() implies (match lookup(
        b.names@,
        (#[trigger] a.names[k]).0@,
    ) {
        Some(j) => 0 <= j < b.elems.len() && b.elems[j] == a.elems[a.names[k].1 as int],
        None => false,
    }) by {
        let nm = a.names@[k].0@;
        assert(forall|j: int| 0 <= j < k ==> (#[trigger] a.names@[j]).0@ != nm);
        lemma_lookup_finds(a.names@, k);
        assert(name_type(a, nm) == Some(a.elems[a.names@[k].1 as int]));
        assert(name_type(b, nm) == name_type(a, nm));
    }
    assert forall|k: int| 0 <= k < b.names.len() implies lookup(
        a.names@,
        (#[trigger] b.names[k]).0@,
    ) is Some by {
        let nm = b.names@[k].0@;
        assert(forall|j: int| 0 <= j < k ==> (#[trigger] b.names@[j]).0@ != nm);
        lemma_lookup_finds(b.names@, k);
        assert(name_type(b, nm) is Some);
        assert(name_type(a, nm) == name_type(b, nm));
    }
}

/// Structural equality check of two union aggregate values.
pub fn union_value_eq(a: &UnionType, b: &UnionType) -> (r: bool)
    ensures
        r == union_equiv(*a, *b),
{
    if a.types.len() != b.types.len() {
        assert(a.types@.len() != b.types@.len());
        return false;
    }
    let w = a.types.len();
    let mut i: usize = 0;
    while i < w
        invariant
            i <= w,
            w == a.types.len(),
            w == b.types.len(),
            forall|j: int| 0 <= j < i ==> a.types[j] == b.types[j],
        decreases w - i,
    {
        if !type_eq(&a.types[i], &b.types[i]) {
            assert(a.types@[i as int] != b.types@[i as int]);
            return false;
        }
        i += 1;
    }
    assert(a.types@ =~= b.types@);
    true
}

/// Structural equality of two function types: parameters and results must
/// both agree as records.
pub fn func_eq(a: &FuncType, b: &FuncType) -> (r: bool)
    requires
        record_wf(a.params),
        record_wf(a.results),
        record_wf(b.params),
        record_wf(b.results),
    ensures
        r == (record_equiv(a.params, b.params) && record_equiv(a.results, b.results)),
{
    if !record_value_eq(&a.params, &b.params) {
        return false;
    }
    record_value_eq(&a.results, &b.results)
}

/// The arena holding every record and union aggregate of one compilation
/// unit's type graph.
#[derive(Debug)]
pub struct TypeStore {
    pub records: Vec<RecordType>,
    pub unions: Vec<UnionType>,
}

impl TypeStore {
    /// Whether a type's aggregate reference, if any, points into this
    /// store.
    pub open spec fn type_valid(self, t: Type) -> bool {
        match t {
            Type::Primitive(_) => true,
            Type::Record(h) => h.id < self.records.len(),
            Type::Union(h) => h.id < self.unions.len(),
        }
    }

    /// Store invariant: every aggregate satisfies its own invariant and
    /// every member type points into the store.
    pub open spec fn wf(self) -> bool {
        &&& (forall|i: int| 0 <= i < self.records.len() ==> record_wf(#[trigger] self.records[i]))
        &&& (forall|i: int, k: int|
            0 <= i < self.records.len() && 0 <= k < self.records[i].elems.len()
                ==> self.type_valid(#[trigger] self.records[i].elems[k]))
        &&& (forall|i: int, k: int|
            0 <= i < self.unions.len() && 0 <= k < self.unions[i].types.len() ==> self.type_valid(
                #[trigger] self.unions[i].types[k],
            ))
    }

    /// An empty store.
    pub fn new() -> (s: TypeStore)
        ensures
            s.wf(),
            s.records.len() == 0,
            s.unions.len() == 0,
    {
        TypeStore { records: Vec::new(), unions: Vec::new() }
    }

    /// Allocate a new shared mutable record aggregate from an ordered field
    /// list; a field's name may be absent (a positional member). Returns
    /// the handle through which any number of type expressions may address
    /// the aggregate. The name→index mapping maps each name to the last
    /// field declared under it.
    pub fn create_record(&mut self, fields: Vec<(Option<String>, Type)>) -> (h: RecordHandle)
        requires
            old(self).wf(),
            forall|k: int| 0 <= k < fields.len() ==> old(self).type_valid(fields[k].1),
        ensures
            final(self).wf(),
            h.id == old(self).records.len(),
            final(self).records.len() == old(self).records.len() + 1,
            final(self).unions@ == old(self).unions@,
            forall|i: int|
                0 <= i < old(self).records.len() ==> final(self).records[i] == old(
                    self,
                ).records[i],
            ({
                let r = final(self).records[h.id as int];
                &&& r.elems.len() == fields.len()
                &&& (forall|k: int| 0 <= k < fields.len() ==> r.elems[k] == fields[k].1)
                &&& (forall|n: Seq<char>| lookup(r.names@, n) == fields_lookup(fields@, n))
            }),
    {
        let h = RecordHandle { id: self.records.len() };
        self.records.push(RecordType { elems: Vec::new(), names: Vec::new() });
        assert(self.wf());
        self.extend_record(h, fields);
        h
    }

    /// Append further fields to an existing record aggregate in place.
    ///
    /// The extension is visible through every reference holding this
    /// handle: members already present keep their positions and types, the
    /// new members follow them in order, every previously resolvable name
    /// still resolves as before unless a new field shadows it, and each
    /// added name resolves to its new field. This is what completes a
    /// forward-declared record after the handle has been shared.
    pub fn extend_record(&mut self, h: RecordHandle, fields: Vec<(Option<String>, Type)>)
        requires
            old(self).wf(),
            h.id < old(self).records.len(),
            forall|k: int| 0 <= k < fields.len() ==> old(self).type_valid(fields[k].1),
        ensures
            final(self).wf(),
            final(self).records.len() == old(self).records.len(),
            final(self).unions@ == old(self).unions@,
            forall|i: int|
                0 <= i < old(self).records.len() && i != h.id ==> final(self).records[i] == old(
                    self,
                ).records[i],
            ({
                let r0 = old(self).records[h.id as int];
                let r = final(self).records[h.id as int];
                &&& r.elems.len() == r0.elems.len() + fields.len()
                &&& (forall|k: int| 0 <= k < r0.elems.len() ==> r.elems[k] == r0.elems[k])
                &&& (forall|k: int|
                    0 <= k < fields.len() ==> r.elems[r0.elems.len() + k] == fields[k].1)
                &&& (forall|n: Seq<char>|
                    lookup(r.names@, n) == (match fields_lookup(fields@, n) {
                        Some(j) => Some(r0.elems.len() + j),
                        None => lookup(r0.names@, n),
                    }))
            }),
    {
        let ghost base = old(self).records[h.id as int].elems.len() as int;
        let mut r = self.records.remove(h.id);
        let ghost r0 = r;
        assert(record_wf(r0));
        let n = fields.len();
        let mut k: usize = 0;
        while k < n
            invariant
                k <= n,
                n == fields.len(),
                base == r0.elems.len(),
                record_wf(r0),
                record_wf(r),
                r.elems.len() == base + k,
                forall|j: int| 0 <= j < base ==> r.elems[j] == r0.elems[j],
                forall|j: int| 0 <= j < k ==> r.elems[base + j] == fields[j].1,
                forall|j: int|
                    0 <= j < r.elems.len() ==> old(self).type_valid(#[trigger] r.elems[j]),
                forall|j: int| 0 <= j < r0.elems.len() ==> old(self).type_valid(
                    #[trigger] r0.elems[j],
                ),
                forall|j: int| 0 <= j < fields.len() ==> old(self).type_valid(fields[j].1),
                forall|n2: Seq<char>|
                    lookup(r.names@, n2) == (match fields_lookup(fields@.take(k as int), n2) {
                        Some(j) => Some(base + j),
                        None => lookup(r0.names@, n2),
                    }),
            decreases n - k,
        {
            let ghost names_before = r.names@;
            proof {
                assert(fields@.take(k as int + 1).drop_last() =~= fields@.take(k as int));
                assert(fields@.take(k as int + 1).last() == fields@[k as int]);
            }
            let idx = r.elems.len();
            match &fields[k] {
                (Some(s), t) => {
                    r.elems.push(*t);
                    match find_name(&r.names, s.as_str()) {
                        Some(p) => {
                            // remap the existing entry for this name
                            let ghost q = p as int;
                            let v = (s.clone(), idx);
                            r.names[p] = v;
                            proof {
                                assert(v.0@ == s@);
                                assert(r.names@ =~= names_before.update(q, v));
                                assert forall|n2: Seq<char>| true implies lookup(r.names@, n2)
                                    == (if s@ == n2 {
                                    Some(idx as int)
                                } else {
                                    lookup(names_before, n2)
                                }) by {
                                    lemma_lookup_update(names_before, q, v, n2);
                                }
                            }
                        },
                        None => {
                            let v = (s.clone(), idx);
                            r.names.push(v);
                            proof {
                                assert(v.0@ == s@);
                                lemma_lookup_none(names_before, s@);
                                assert forall|n2: Seq<char>| true implies lookup(r.names@, n2)
                                    == (if s@ == n2 {
                                    Some(idx as int)
                                } else {
                                    lookup(names_before, n2)
                                }) by {
                                    lemma_lookup_push(names_before, v, n2);
                                }
                            }
                        },
                    }
                },
                (None, t) => {
                    r.elems.push(*t);
                },
            }
            k += 1;
        }
        proof {
            assert(fields@.take(n as int) =~= fields@);
        }
        self.records.insert(h.id, r);
        proof {
            assert(self.records@ =~= old(self).records@.update(h.id as int, r));
            assert(self.records.len() == old(self).records.len());
            assert forall|i: int, k2: int|
                0 <= i < self.records.len() && 0 <= k2 < self.records[i].elems.len() implies self
                .type_valid(#[trigger] self.records[i].elems[k2]) by {
                assert(old(self).type_valid(self.records[i].elems[k2]));
            }
            assert forall|i: int, k2: int|
                0 <= i < self.unions.len() && 0 <= k2 < self.unions[i].types.len() implies self
                .type_valid(#[trigger] self.unions[i].types[k2]) by {
                assert(old(self).type_valid(self.unions[i].types[k2]));
            }
        }
    }

    /// Look a field's position up by name; fails with `FieldNotFound`
    /// exactly when the record's name→index mapping has no entry for the
    /// name.
    pub fn resolve_field(&self, h: RecordHandle, name: &str) -> (r: Result<usize, ResolveError>)
        requires
            h.id < self.records.len(),
        ensures
            r matches Ok(i) ==> lookup(self.records[h.id as int].names@, name@) == Some(i as int),
            r matches Err(e) ==> e == ResolveError::FieldNotFound && lookup(
                self.records[h.id as int].names@,
                name@,
            ) is None,
            self.wf() ==> (r matches Ok(i) ==> i < self.records[h.id as int].elems.len()),
    {
        let rec = &self.records[h.id];
        let res = lookup_name(&rec.names, name);
        match res {
            Some(i) => {
                proof {
                    if self.wf() {
                        lemma_lookup_entry(rec.names@, name@);
                    }
                }
                Ok(i)
            },
            None => Err(ResolveError::FieldNotFound),
        }
    }

    /// Allocate a new shared mutable union aggregate from ordered members.
    pub fn create_union(&mut self, members: Vec<Type>) -> (h: UnionHandle)
        requires
            old(self).wf(),
            forall|k: int| 0 <= k < members.len() ==> old(self).type_valid(#[trigger] members[k]),
        ensures
            final(self).wf(),
            h.id == old(self).unions.len(),
            final(self).unions.len() == old(self).unions.len() + 1,
            final(self).records@ == old(self).records@,
            forall|i: int|
                0 <= i < old(self).unions.len() ==> final(self).unions[i] == old(self).unions[i],
            final(self).unions[h.id as int].types@ == members@,
    {
        let h = UnionHandle { id: self.unions.len() };
        self.unions.push(UnionType { types: members });
        h
    }

    /// Append further members to an existing union aggregate in place; the
    /// extension is visible through every reference holding this handle.
    pub fn extend_union(&mut self, h: UnionHandle, members: Vec<Type>)
        requires
            old(self).wf(),
            h.id < old(self).unions.len(),
            forall|k: int| 0 <= k < members.len() ==> old(self).type_valid(#[trigger] members[k]),
        ensures
            final(self).wf(),
            final(self).unions.len() == old(self).unions.len(),
            final(self).records@ == old(self).records@,
            forall|i: int|
                0 <= i < old(self).unions.len() && i != h.id ==> final(self).unions[i] == old(
                    self,
                ).unions[i],
            final(self).unions[h.id as int].types@ == old(self).unions[h.id as int].types@
                + members@,
    {
        let mut u = self.unions.remove(h.id);
        let ghost u0 = u;
        let n = members.len();
        let mut k: usize = 0;
        while k < n
            invariant
                k <= n,
                n == members.len(),
                u.types@ == u0.types@ + members@.take(k as int),
            decreases n - k,
        {
            u.types.push(members[k]);
            proof {
                assert(u0.types@ + members@.take(k as int + 1) =~= (u0.types@ + members@.take(
                    k as int,
                )).push(members@[k as int]));
            }
            k += 1;
        }
        proof {
            assert(members@.take(n as int) =~= members@);
        }
        self.unions.insert(h.id, u);
        proof {
            assert(self.unions@ =~= old(self).unions@.update(h.id as int, u));
        }
    }

    /// Structural equality of two record aggregates addressed by handle:
    /// never bare handle comparison, except that a handle is always
    /// equivalent to itself and is then accepted without a scan.
    pub fn record_eq(&self, h1: RecordHandle, h2: RecordHandle) -> (r: bool)
        requires
            self.wf(),
            h1.id < self.records.len(),
            h2.id < self.records.len(),
        ensures
            r == record_equiv(self.records[h1.id as int], self.records[h2.id as int]),
    {
        if h1.id == h2.id {
            proof {
                lemma_record_equiv_refl(self.records[h1.id as int]);
            }
            return true;
        }
        record_value_eq(&self.records[h1.id], &self.records[h2.id])
    }

    /// Structural equality of two union aggregates addressed by handle,
    /// with the same self-identity fast path.
    pub fn union_eq(&self, h1: UnionHandle, h2: UnionHandle) -> (r: bool)
        requires
            h1.id < self.unions.len(),
            h2.id < self.unions.len(),
        ensures
            r == union_equiv(self.unions[h1.id as int], self.unions[h2.id as int]),
    {
        if h1.id == h2.id {
            return true;
        }
        union_value_eq(&self.unions[h1.id], &self.unions[h2.id])
    }
}

} // verus!
