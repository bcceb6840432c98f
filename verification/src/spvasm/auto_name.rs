//! Readable names for the ids of a module: sanitized debug names, names made
//! from types and constants, and numbered duplicates.
use vstd::prelude::*;

use std::collections::HashMap;

use crate::constant::{Constant, ConstantValue};
use crate::text::{dec_chars, owned, push_char, push_dec, push_signed_dec, push_str, signed_dec_chars};
use crate::spv::{storage_class_name, storage_class_text};
use crate::ty::copy::ty_same;
use crate::ty::mutate::lemma_ty_same_refl;
use crate::ty::equiv::{lemma_same_equiv, opt_text, same_type, ty_equiv};
use crate::ty::{ArrayType, MatrixType, PointerType, ScalarType, Type, VectorType};

verus! {

broadcast use vstd::std_specs::hash::group_hash_axioms;

/// ASCII punctuation as `char::is_ascii_punctuation` defines it.
pub open spec fn is_punct(c: char) -> bool {
    ('!' <= c <= '/') || (':' <= c <= '@') || ('[' <= c <= '`') || ('{' <= c <= '~')
}

/// A name with every ASCII punctuation character turned into `_`.
pub open spec fn sanitized(s: Seq<char>) -> Seq<char> {
    s.map_values(|c: char| if is_punct(c) { '_' } else { c })
}

/// Convert all punctuations to underscores.
pub fn sanitize_name(name: &str) -> (r: String)
    ensures
        r@ == sanitized(name@),
{
    let cs = crate::spvasm::tokenizer::chars_of(name);
    let mut out = String::new();
    let mut i: usize = 0;
    while i < cs.len()
        invariant
            i <= cs@.len(),
            cs@ == name@,
            out@ == sanitized(cs@.take(i as int)),
        decreases cs@.len() - i,
    {
        let c = cs[i];
        let p = (c >= '!' && c <= '/') || (c >= ':' && c <= '@') || (c >= '[' && c <= '`') || (c
            >= '{' && c <= '~');
        push_char(&mut out, if p { '_' } else { c });
        assert(sanitized(cs@.take(i + 1)) =~= sanitized(cs@.take(i as int)).push(
            if is_punct(c) {
                '_'
            } else {
                c
            },
        ));
        i = i + 1;
    }
    assert(cs@.take(cs@.len() as int) =~= cs@);
    out
}

/// The name of a scalar type, for the types that have one.
pub open spec fn scalar_ty_name(s: ScalarType) -> Option<Seq<char>> {
    match s {
        ScalarType::Void => Some("void"@),
        ScalarType::Boolean => Some("bool"@),
        ScalarType::Integer { bits: 32, is_signed: true } => Some("int"@),
        ScalarType::Integer { bits: 32, is_signed: false } => Some("uint"@),
        ScalarType::Float { bits: 32 } => Some("float"@),
        ScalarType::Float { bits: 64 } => Some("double"@),
        _ => None,
    }
}

/// The name of a vector type: `v`, the component count and the scalar's
/// name.
pub open spec fn vector_ty_name(v: VectorType) -> Option<Seq<char>> {
    match scalar_ty_name(v.scalar_ty) {
        Some(n) => Some("v"@ + dec_chars(v.scalar_count as nat) + n),
        None => None,
    }
}

/// The name of a matrix type: `mat`, the vector count and the vector's
/// name.
pub open spec fn matrix_ty_name(m: MatrixType) -> Option<Seq<char>> {
    match vector_ty_name(m.vector_ty) {
        Some(n) => Some("mat"@ + dec_chars(m.vector_count as nat) + n),
        None => None,
    }
}

/// The name of a constant, sanitized: `true`, `false`, `int_` or `uint_`
/// and the value, for the values that have one.
pub open spec fn const_name(v: ConstantValue) -> Option<Seq<char>> {
    match v {
        ConstantValue::Bool(true) => Some("true"@),
        ConstantValue::Bool(false) => Some("false"@),
        ConstantValue::S32(x) => Some(sanitized("int_"@ + signed_dec_chars(x as int))),
        ConstantValue::U32(x) => Some(sanitized("uint_"@ + dec_chars(x as nat))),
        _ => None,
    }
}

/// The name `name` takes when it was given `count` times before: itself the
/// first time, then `name_0`, `name_1` and so on.
pub open spec fn numbered(name: Seq<char>, count: Option<u32>) -> Seq<char> {
    match count {
        None => name,
        Some(c) => name + "_"@ + dec_chars(c as nat),
    }
}

/// How many times a name was given before, if it was.
pub open spec fn name_count(counter: Seq<(String, u32)>, name: Seq<char>) -> Option<u32>
    decreases counter.len(),
{
    if counter.len() == 0 {
        None
    } else if counter.last().0@ == name {
        Some(counter.last().1)
    } else {
        name_count(counter.drop_last(), name)
    }
}

/// What an auto-namer holds, as values: the names assigned to ids, and how
/// many times each name was handed out before.
pub struct NamerModel {
    pub names: Map<u32, Seq<char>>,
    pub counts: Map<Seq<char>, u32>,
}

/// Assigning `name` to `id`: nothing if `id` has a name already; else `id`
/// takes the name, numbered if it was handed out before, and the name's
/// count goes up.
pub open spec fn assign_step(m: NamerModel, id: u32, name: Seq<char>) -> NamerModel {
    if m.names.contains_key(id) {
        m
    } else {
        let c = if m.counts.contains_key(name) {
            Some(m.counts[name])
        } else {
            None
        };
        NamerModel {
            names: m.names.insert(id, numbered(name, c)),
            counts: m.counts.insert(
                name,
                match c {
                    None => 0u32,
                    Some(k) => (k + 1) as u32,
                },
            ),
        }
    }
}

/// Assigning the names in order; an entry without a name is passed over.
pub open spec fn assign_all(m: NamerModel, items: Seq<(u32, Option<Seq<char>>)>) -> NamerModel
    decreases items.len(),
{
    if items.len() == 0 {
        m
    } else {
        let prev = assign_all(m, items.drop_last());
        match items.last().1 {
            Some(n) => assign_step(prev, items.last().0, n),
            None => prev,
        }
    }
}

/// Every count, and that of a name not handed out yet, can go up `k` more
/// times.
pub open spec fn counts_fit(m: NamerModel, k: int) -> bool {
    &&& k < u32::MAX
    &&& forall|n: Seq<char>| #[trigger] m.counts.contains_key(n) ==> m.counts[n] + k < u32::MAX
}

/// The name an interpreted constant is given: its own name, else the name
/// made from its value.
pub open spec fn const_item_name(c: Constant) -> Option<Seq<char>> {
    match c.name {
        Some(n) => Some(n@),
        None => const_name(c.value),
    }
}

proof fn lemma_step_fits(m: NamerModel, id: u32, name: Seq<char>, k: int)
    requires
        counts_fit(m, k + 1),
        k >= 0,
    ensures
        counts_fit(assign_step(m, id, name), k),
{
    let m2 = assign_step(m, id, name);
    assert forall|n: Seq<char>| #[trigger] m2.counts.contains_key(n) implies m2.counts[n] + k
        < u32::MAX by {
        if !m.names.contains_key(id) && n == name {
            if m.counts.contains_key(name) {
                assert(m.counts[name] + k + 1 < u32::MAX);
            }
        } else {
            assert(m.counts.contains_key(n));
        }
    }
}

/// Where the first entry of the type cache whose type equals `t` stands.
pub open spec fn cache_index(c: Seq<(Type, u32)>, t: Type) -> Option<int>
    decreases c.len(),
{
    if c.len() == 0 {
        None
    } else if ty_equiv(c[0].0, t) {
        Some(0)
    } else {
        match cache_index(c.drop_first(), t) {
            Some(k) => Some(k + 1),
            None => None,
        }
    }
}

/// The id the type cache holds for `t`, as a map keyed by types gives it.
pub open spec fn cache_find(c: Seq<(Type, u32)>, t: Type) -> Option<u32> {
    match cache_index(c, t) {
        Some(k) => Some(c[k].1),
        None => None,
    }
}

/// Looking types up in the cache.
pub open spec fn finder(c: Seq<(Type, u32)>) -> spec_fn(Type) -> Option<u32> {
    |t: Type| cache_find(c, t)
}

/// Recording `id` for `t` unless the cache holds an id for it.
pub open spec fn cache_or_insert(c: Seq<(Type, u32)>, t: Type, id: u32) -> Seq<(Type, u32)> {
    match cache_index(c, t) {
        Some(_) => c,
        None => c.push((t, id)),
    }
}

/// Recording `id` for `t`, in place of an id held for it.
pub open spec fn cache_insert(c: Seq<(Type, u32)>, t: Type, id: u32) -> Seq<(Type, u32)> {
    match cache_index(c, t) {
        Some(k) => c.update(k, (c[k].0, id)),
        None => c.push((t, id)),
    }
}

/// The cache `a` holds copies of the types of `s`, with the same ids.
pub open spec fn cache_like(a: Seq<(Type, u32)>, s: Seq<(Type, u32)>) -> bool {
    &&& a.len() == s.len()
    &&& forall|i: int| #![trigger a[i]] 0 <= i < a.len() ==> a[i].1 == s[i].1 && ty_same(a[i].0, s[i].0)
}

/// The name of a type given the names assigned so far and the ids that the
/// cache holds for types (looked up by `find`): the name of the id held for
/// the type if that id has one; else the name made from the type: scalars,
/// vectors and matrices by their own names, arrays and pointers from the
/// name of their element or pointee, structs by their sanitized name.
pub open spec fn ty_name(
    t: Type,
    names: Map<u32, Seq<char>>,
    find: spec_fn(Type) -> Option<u32>,
) -> Option<Seq<char>>
    decreases t,
{
    let cached = match find(t) {
        Some(id) => if names.contains_key(id) {
            Some(names[id])
        } else {
            None
        },
        None => None,
    };
    if cached is Some {
        cached
    } else {
        match t {
            Type::Scalar(x) => scalar_ty_name(x),
            Type::Vector(x) => vector_ty_name(x),
            Type::Matrix(x) => matrix_ty_name(x),
            Type::Array(a) => match ty_name(*a.element_ty, names, find) {
                Some(n) => Some(
                    match a.element_count {
                        Some(c) => "_arr_"@ + n + "_uint_"@ + dec_chars(c as nat),
                        None => "_runtimearr_"@ + n,
                    },
                ),
                None => None,
            },
            Type::Struct(x) => match x.name {
                Some(n) => Some(sanitized(n@)),
                None => None,
            },
            Type::DevicePointer(p) => match ty_name(*p.pointee_ty, names, find) {
                Some(n) => Some("_ptr_"@ + storage_class_name(p.store_cls) + "_"@ + n),
                None => match find(*p.pointee_ty) {
                    Some(id) => Some(
                        "_ptr_"@ + storage_class_name(p.store_cls) + "_"@ + dec_chars(id as nat),
                    ),
                    None => None,
                },
            },
            _ => None,
        }
    }
}

/// The name of an array type made from its element's name; see `ty_name`.
pub open spec fn arr_ty_name(
    a: ArrayType,
    names: Map<u32, Seq<char>>,
    find: spec_fn(Type) -> Option<u32>,
) -> Option<Seq<char>> {
    match ty_name(*a.element_ty, names, find) {
        Some(n) => Some(
            match a.element_count {
                Some(c) => "_arr_"@ + n + "_uint_"@ + dec_chars(c as nat),
                None => "_runtimearr_"@ + n,
            },
        ),
        None => None,
    }
}

/// The name of a pointer type made from its pointee's name, or from the id
/// cached for its pointee; see `ty_name`.
pub open spec fn pointer_ty_name(
    p: PointerType,
    names: Map<u32, Seq<char>>,
    find: spec_fn(Type) -> Option<u32>,
) -> Option<Seq<char>> {
    match ty_name(*p.pointee_ty, names, find) {
        Some(n) => Some("_ptr_"@ + storage_class_name(p.store_cls) + "_"@ + n),
        None => match find(*p.pointee_ty) {
            Some(id) => Some("_ptr_"@ + storage_class_name(p.store_cls) + "_"@ + dec_chars(id as nat)),
            None => None,
        },
    }
}

/// Naming one type: a type that gets a name gives it to its id, and the
/// cache keeps the first id recorded for it; a type without a name has its
/// id recorded in the cache.
pub open spec fn ty_step(m: NamerModel, c: Seq<(Type, u32)>, id: u32, t: Type) -> (
    NamerModel,
    Seq<(Type, u32)>,
) {
    match ty_name(t, m.names, finder(c)) {
        Some(n) => (assign_step(m, id, n), cache_or_insert(c, t, id)),
        None => (m, cache_insert(c, t, id)),
    }
}

/// Naming the types in order; see `ty_step`.
pub open spec fn ty_all(m: NamerModel, c: Seq<(Type, u32)>, items: Seq<(u32, Type)>) -> (
    NamerModel,
    Seq<(Type, u32)>,
)
    decreases items.len(),
{
    if items.len() == 0 {
        (m, c)
    } else {
        let (m1, c1) = ty_all(m, c, items.drop_last());
        ty_step(m1, c1, items.last().0, items.last().1)
    }
}

/// A cache of copies finds what the cache of the originals finds.
proof fn lemma_like_index(a: Seq<(Type, u32)>, s: Seq<(Type, u32)>, t: Type)
    requires
        cache_like(a, s),
    ensures
        cache_index(a, t) == cache_index(s, t),
        cache_find(a, t) == cache_find(s, t),
    decreases a.len(),
{
    if a.len() > 0 {
        assert(a[0].1 == s[0].1 && ty_same(a[0].0, s[0].0));
        lemma_same_equiv(a[0].0, s[0].0, t);
        assert forall|i: int| #![trigger a.drop_first()[i]] 0 <= i < a.drop_first().len() implies a.drop_first()[i].1
            == s.drop_first()[i].1 && ty_same(a.drop_first()[i].0, s.drop_first()[i].0) by {
            assert(a.drop_first()[i] == a[i + 1]);
            assert(s.drop_first()[i] == s[i + 1]);
        }
        lemma_like_index(a.drop_first(), s.drop_first(), t);
        lemma_index_bound(a, t);
    }
}

proof fn lemma_index_bound(c: Seq<(Type, u32)>, t: Type)
    ensures
        cache_index(c, t) matches Some(k) ==> 0 <= k < c.len() && ty_equiv(c[k].0, t),
    decreases c.len(),
{
    if c.len() > 0 {
        lemma_index_bound(c.drop_first(), t);
    }
}

/// A cache is like itself.
proof fn lemma_like_refl(c: Seq<(Type, u32)>)
    ensures
        cache_like(c, c),
{
    assert forall|i: int| #![trigger c[i]] 0 <= i < c.len() implies c[i].1 == c[i].1 && ty_same(
        c[i].0,
        c[i].0,
    ) by {
        crate::ty::mutate::lemma_ty_same_refl(c[i].0);
    }
}

proof fn lemma_push_like(a: Seq<(Type, u32)>, s: Seq<(Type, u32)>, x: Type, t: Type, id: u32)
    requires
        cache_like(a, s),
        ty_same(x, t),
    ensures
        cache_like(a.push((x, id)), s.push((t, id))),
{
    let a2 = a.push((x, id));
    let s2 = s.push((t, id));
    assert forall|i: int| #![trigger a2[i]] 0 <= i < a2.len() implies a2[i].1 == s2[i].1 && ty_same(
        a2[i].0,
        s2[i].0,
    ) by {
        if i < a.len() {
            assert(a2[i] == a[i] && s2[i] == s[i]);
        }
    }
}

proof fn lemma_update_like(a: Seq<(Type, u32)>, s: Seq<(Type, u32)>, k: int, id: u32)
    requires
        cache_like(a, s),
        0 <= k < a.len(),
    ensures
        cache_like(a.update(k, (a[k].0, id)), s.update(k, (s[k].0, id))),
{
    let a2 = a.update(k, (a[k].0, id));
    let s2 = s.update(k, (s[k].0, id));
    assert forall|i: int| #![trigger a2[i]] 0 <= i < a2.len() implies a2[i].1 == s2[i].1 && ty_same(
        a2[i].0,
        s2[i].0,
    ) by {
        assert(a[i].1 == s[i].1 && ty_same(a[i].0, s[i].0));
    }
}

/// Caches of copies look types up alike.
proof fn lemma_like_finder(a: Seq<(Type, u32)>, s: Seq<(Type, u32)>)
    requires
        cache_like(a, s),
    ensures
        finder(a) == finder(s),
{
    assert forall|t: Type| #[trigger] finder(a)(t) == finder(s)(t) by {
        lemma_like_index(a, s, t);
    }
    assert(finder(a) =~= finder(s));
}

/// Names assigned to ids, and how often each name was handed out.
pub struct AutoNamer {
    names: HashMap<u32, String>,
    cache: Vec<(Type, u32)>,
    name_counter: Vec<(String, u32)>,
}

/// Naming the types from a cache of copies gives the names and (up to
/// copies) the cache that naming them from the originals gives.
proof fn lemma_like_ty_all(m: NamerModel, a: Seq<(Type, u32)>, s: Seq<(Type, u32)>, items: Seq<(u32, Type)>)
    requires
        cache_like(a, s),
    ensures
        ty_all(m, a, items).0 == ty_all(m, s, items).0,
        cache_like(ty_all(m, a, items).1, ty_all(m, s, items).1),
    decreases items.len(),
{
    if items.len() > 0 {
        lemma_like_ty_all(m, a, s, items.drop_last());
        let (m1, a1) = ty_all(m, a, items.drop_last());
        let s1 = ty_all(m, s, items.drop_last()).1;
        let (id, t) = items.last();
        lemma_like_finder(a1, s1);
        lemma_like_index(a1, s1, t);
        lemma_index_bound(s1, t);
        lemma_ty_same_refl(t);
        match cache_index(s1, t) {
            Some(k) => lemma_update_like(a1, s1, k, id),
            None => lemma_push_like(a1, s1, t, t, id),
        }
    }
}

/// Names handed out in order leave room for `k` more of each when there
/// was room for `k` more than their number.
proof fn lemma_assign_all_fits(m: NamerModel, items: Seq<(u32, Option<Seq<char>>)>, k: int)
    requires
        counts_fit(m, k + items.len()),
        k >= 0,
    ensures
        counts_fit(assign_all(m, items), k),
    decreases items.len(),
{
    if items.len() > 0 {
        lemma_assign_all_fits(m, items.drop_last(), k + 1);
        match items.last().1 {
            Some(n) => lemma_step_fits(assign_all(m, items.drop_last()), items.last().0, n, k),
            None => {},
        }
    }
}

/// As `lemma_assign_all_fits`, for naming types.
proof fn lemma_ty_all_fits(m: NamerModel, c: Seq<(Type, u32)>, items: Seq<(u32, Type)>, k: int)
    requires
        counts_fit(m, k + items.len()),
        k >= 0,
    ensures
        counts_fit(ty_all(m, c, items).0, k),
    decreases items.len(),
{
    if items.len() > 0 {
        lemma_ty_all_fits(m, c, items.drop_last(), k + 1);
        let (m1, c1) = ty_all(m, c, items.drop_last());
        match ty_name(items.last().1, m1.names, finder(c1)) {
            Some(n) => lemma_step_fits(m1, items.last().0, n, k),
            None => {},
        }
    }
}

/// The names of a module: the types named twice over (a type named the
/// first time can name the types built on it the second time) if
/// `name_type_ids`, then the interpreted constants if `name_const_ids`, then
/// the debug names if `name_ids`; each id keeps the first name it gets.
pub open spec fn collected_names(
    types: Seq<(u32, Type)>,
    consts: Seq<(u32, Option<Seq<char>>)>,
    debug_names: Seq<(u32, Option<Seq<char>>)>,
    name_ids: bool,
    name_type_ids: bool,
    name_const_ids: bool,
) -> Map<u32, Seq<char>> {
    let m0 = NamerModel { names: Map::empty(), counts: Map::empty() };
    let m1 = if name_type_ids {
        let (ma, ca) = ty_all(m0, Seq::empty(), types);
        ty_all(ma, ca, types).0
    } else {
        m0
    };
    let m2 = if name_const_ids {
        assign_all(m1, consts)
    } else {
        m1
    };
    let m3 = if name_ids {
        assign_all(m2, debug_names)
    } else {
        m2
    };
    m3.names
}

/// Name the ids of a module from its declared types, its interpreted
/// constants and its debug names; see `collected_names`.
pub fn collect_names(
    types: &[(u32, &Type)],
    consts: &[(u32, &Constant)],
    debug_names: &[(u32, String)],
    name_ids: bool,
    name_type_ids: bool,
    name_const_ids: bool,
) -> (r: HashMap<u32, String>)
    requires
        2 * types@.len() + consts@.len() + debug_names@.len() < u32::MAX,
    ensures
        r@.map_values(|s: String| s@) == collected_names(
            types@.map_values(|p: (u32, &Type)| (p.0, *p.1)),
            consts@.map_values(|p: (u32, &Constant)| (p.0, const_item_name(*p.1))),
            debug_names@.map_values(|p: (u32, String)| (p.0, Some(sanitized(p.1@)))),
            name_ids,
            name_type_ids,
            name_const_ids,
        ),
{
    let ghost ts = types@.map_values(|p: (u32, &Type)| (p.0, *p.1));
    let ghost cs = consts@.map_values(|p: (u32, &Constant)| (p.0, const_item_name(*p.1)));
    let ghost ds = debug_names@.map_values(|p: (u32, String)| (p.0, Some(sanitized(p.1@))));
    let ghost budget: int = (2 * types@.len() + consts@.len() + debug_names@.len()) as int;
    let mut namer = AutoNamer::new();
    let ghost m0 = namer.model();
    proof {
        assert(m0.names =~= Map::<u32, Seq<char>>::empty());
        assert(m0.counts =~= Map::<Seq<char>, u32>::empty());
        assert(counts_fit(m0, budget));
    }
    if name_type_ids {
        namer.collect_ty_names(types);
        let ghost ma = namer.model();
        let ghost ca = namer.spec_cache();
        proof {
            lemma_ty_all_fits(m0, Seq::empty(), ts, budget - types@.len());
        }
        namer.collect_ty_names(types);
        proof {
            let sa = ty_all(m0, Seq::<(Type, u32)>::empty(), ts).1;
            lemma_like_ty_all(ma, ca, sa, ts);
            lemma_ty_all_fits(ma, ca, ts, (consts@.len() + debug_names@.len()) as int);
        }
    }
    let ghost m1 = namer.model();
    proof {
        assert(counts_fit(m1, (consts@.len() + debug_names@.len()) as int));
    }
    if name_const_ids {
        namer.collect_const_names(consts);
        proof {
            lemma_assign_all_fits(m1, cs, debug_names@.len() as int);
        }
    }
    if name_ids {
        namer.collect_annotated_names(debug_names);
    }
    let ghost m3 = namer.model();
    let out = namer.names;
    proof {
        assert(out@.map_values(|s: String| s@) =~= m3.names);
    }
    out
}

impl AutoNamer {
    /// The names assigned so far.
    pub closed spec fn spec_names(self) -> Map<u32, String> {
        self.names@
    }

    /// The ids recorded for types, in the order they were first recorded.
    pub closed spec fn spec_cache(self) -> Seq<(Type, u32)> {
        self.cache@
    }

    /// How many times a name was handed out before, if it was.
    pub closed spec fn count(self, name: Seq<char>) -> Option<u32> {
        name_count(self.name_counter@, name)
    }

    /// The names and counts as values.
    pub open spec fn model(self) -> NamerModel {
        NamerModel {
            names: self.spec_names().map_values(|s: String| s@),
            counts: Map::new(|n: Seq<char>| self.count(n) is Some, |n: Seq<char>| self.count(n)->0),
        }
    }

    /// No name is counted twice.
    pub closed spec fn wf(self) -> bool {
        forall|i: int, j: int|
            0 <= i < j < self.name_counter@.len() ==> self.name_counter@[i].0@
                != self.name_counter@[j].0@
    }

    pub fn new() -> (r: Self)
        ensures
            r.wf(),
            r.spec_names() == Map::<u32, String>::empty(),
            r.spec_cache() == Seq::<(Type, u32)>::empty(),
            forall|n: Seq<char>| r.count(n) is None,
    {
        AutoNamer { names: HashMap::new(), cache: Vec::new(), name_counter: Vec::new() }
    }

    /// The names assigned so far.
    pub fn names(&self) -> (r: &HashMap<u32, String>)
        ensures
            r@ == self.spec_names(),
    {
        &self.names
    }

    /// Assign `name` to `id` unless it has a name already; a name handed out
    /// before is numbered; see `numbered`.
    pub fn assign_name(&mut self, id: u32, name: String)
        requires
            old(self).wf(),
            !old(self).spec_names().contains_key(id) ==> (old(self).count(name@) matches Some(c)
                ==> c < u32::MAX),
        ensures
            final(self).wf(),
            final(self).spec_cache() == old(self).spec_cache(),
            old(self).spec_names().contains_key(id) ==> *final(self) == *old(self),
            !old(self).spec_names().contains_key(id) ==> {
                &&& final(self).spec_names().dom() == old(self).spec_names().dom().insert(id)
                &&& final(self).spec_names()[id]@ == numbered(name@, old(self).count(name@))
                &&& forall|k: u32|
                    k != id && old(self).spec_names().contains_key(k) ==> final(self).spec_names()[k] == old(self).spec_names()[k]
                &&& final(self).count(name@) == Some(
                    match old(self).count(name@) {
                        None => 0u32,
                        Some(c) => (c + 1) as u32,
                    },
                )
                &&& forall|n: Seq<char>| n != name@ ==> final(self).count(n) == old(self).count(n)
            },
    {
        if self.names.contains_key(&id) {
            return;
        }
        let mut k: usize = self.name_counter.len();
        assert(self.name_counter@.take(k as int) =~= self.name_counter@);
        while k > 0
            invariant
                old(self).wf(),
                *self == *old(self),
                k <= self.name_counter@.len(),
                name_count(self.name_counter@, name@) == name_count(
                    self.name_counter@.take(k as int),
                    name@,
                ),
            ensures
                old(self).wf(),
                *self == *old(self),
                k <= self.name_counter@.len(),
                name_count(self.name_counter@, name@) == name_count(
                    self.name_counter@.take(k as int),
                    name@,
                ),
                k > 0 ==> self.name_counter@[k - 1].0@ == name@,
            decreases k,
        {
            assert(self.name_counter@.take(k as int).drop_last() =~= self.name_counter@.take(
                k - 1,
            ));
            if self.name_counter[k - 1].0 == name {
                break;
            }
            k = k - 1;
        }
        if k == 0 {
            assert(self.name_counter@.take(0) =~= Seq::<(String, u32)>::empty());
            let counted = name.clone();
            self.name_counter.push((counted, 0));
            self.names.insert(id, name);
            proof {
                assert(self.name_counter@.drop_last() =~= old(self).name_counter@);
                assert forall|i: int, j: int|
                    0 <= i < j < self.name_counter@.len() implies self.name_counter@[i].0@
                    != self.name_counter@[j].0@ by {
                    if j == self.name_counter@.len() - 1 {
                        lemma_count_none(old(self).name_counter@, name@, i);
                    }
                }
            }
        } else {
            let c = self.name_counter[k - 1].1;
            proof {
                lemma_count_at(old(self).name_counter@, name@, k - 1);
            }
            let mut numbered_name = String::new();
            push_str(&mut numbered_name, name.as_str());
            push_str(&mut numbered_name, "_");
            push_dec(&mut numbered_name, c as u64);
            let entry_name = self.name_counter[k - 1].0.clone();
            self.name_counter.set(k - 1, (entry_name, c + 1));
            self.names.insert(id, numbered_name);
            proof {
                assert(numbered_name@ =~= name@ + "_"@ + dec_chars(c as nat));
                lemma_count_update(old(self).name_counter@, name@, k - 1, (c + 1) as u32);
            }
        }
    }

    /// Assign `name` to `id` as `assign_step` says.
    fn assign(&mut self, id: u32, name: String)
        requires
            old(self).wf(),
            counts_fit(old(self).model(), 1),
        ensures
            final(self).wf(),
            final(self).spec_cache() == old(self).spec_cache(),
            final(self).model() == assign_step(old(self).model(), id, name@),
    {
        let ghost m = self.model();
        proof {
            if !m.names.contains_key(id) && self.count(name@) is Some {
                assert(m.counts.contains_key(name@));
            }
        }
        self.assign_name(id, name);
        proof {
            let m2 = assign_step(m, id, name@);
            if m.names.contains_key(id) {
                assert(self.model() == m);
            } else {
                assert(self.model().names =~= m2.names);
                assert(self.model().counts =~= m2.counts);
            }
        }
    }

    /// Name the ids that debug names were declared for, in order, each by
    /// its name sanitized.
    pub fn collect_annotated_names(&mut self, names: &[(u32, String)])
        requires
            old(self).wf(),
            counts_fit(old(self).model(), names@.len() as int),
        ensures
            final(self).wf(),
            final(self).model() == assign_all(
                old(self).model(),
                names@.map_values(|p: (u32, String)| (p.0, Some(sanitized(p.1@)))),
            ),
    {
        let ghost items = names@.map_values(|p: (u32, String)| (p.0, Some(sanitized(p.1@))));
        let mut i: usize = 0;
        while i < names.len()
            invariant
                i <= names@.len(),
                self.wf(),
                items == names@.map_values(|p: (u32, String)| (p.0, Some(sanitized(p.1@)))),
                self.model() == assign_all(old(self).model(), items.take(i as int)),
                counts_fit(self.model(), names@.len() - i),
            decreases names@.len() - i,
        {
            let name = sanitize_name(names[i].1.as_str());
            proof {
                assert(items.take(i + 1).drop_last() =~= items.take(i as int));
                lemma_step_fits(self.model(), names@[i as int].0, name@, names@.len() - i - 1);
            }
            self.assign(names[i].0, name);
            i = i + 1;
        }
        assert(items.take(i as int) =~= items);
    }

    /// Name the interpreted constants, in order: each by its own name, else
    /// by the name made from its value, if it has one; see `const_item_name`.
    pub fn collect_const_names(&mut self, consts: &[(u32, &Constant)])
        requires
            old(self).wf(),
            counts_fit(old(self).model(), consts@.len() as int),
        ensures
            final(self).wf(),
            final(self).model() == assign_all(
                old(self).model(),
                consts@.map_values(|p: (u32, &Constant)| (p.0, const_item_name(*p.1))),
            ),
    {
        let ghost items = consts@.map_values(|p: (u32, &Constant)| (p.0, const_item_name(*p.1)));
        let mut i: usize = 0;
        while i < consts.len()
            invariant
                i <= consts@.len(),
                self.wf(),
                items == consts@.map_values(|p: (u32, &Constant)| (p.0, const_item_name(*p.1))),
                self.model() == assign_all(old(self).model(), items.take(i as int)),
                counts_fit(self.model(), consts@.len() - i),
            decreases consts@.len() - i,
        {
            let (id, c) = consts[i];
            let name = match &c.name {
                Some(n) => Some(n.clone()),
                None => self.make_const_name(&c.value),
            };
            proof {
                assert(items.take(i + 1).drop_last() =~= items.take(i as int));
            }
            match name {
                Some(n) => {
                    proof {
                        lemma_step_fits(self.model(), id, n@, consts@.len() - i - 1);
                    }
                    self.assign(id, n);
                },
                None => {
                    proof {
                        assert(counts_fit(self.model(), consts@.len() - i - 1));
                    }
                },
            }
            i = i + 1;
        }
        assert(items.take(i as int) =~= items);
    }

    /// Where the first entry of the cache whose type equals `t` stands.
    fn cache_position(&self, t: &Type) -> (r: Option<usize>)
        ensures
            match cache_index(self.spec_cache(), *t) {
                Some(k) => r matches Some(j) && j == k && 0 <= k < self.spec_cache().len() && ty_equiv(
                    self.spec_cache()[k].0,
                    *t,
                ),
                None => r is None,
            },
    {
        let ghost c = self.cache@;
        proof {
            lemma_index_bound(c, *t);
            assert(c.skip(0) =~= c);
        }
        let mut i: usize = 0;
        while i < self.cache.len()
            invariant
                c == self.cache@,
                i <= c.len(),
                cache_index(c, *t) == match cache_index(c.skip(i as int), *t) {
                    Some(k) => Some(k + i),
                    None => None::<int>,
                },
            decreases c.len() - i,
        {
            assert(c.skip(i as int)[0] == c[i as int]);
            assert(c.skip(i as int).drop_first() =~= c.skip(i + 1));
            if same_type(&self.cache[i].0, t) {
                return Some(i);
            }
            i = i + 1;
        }
        assert(c.skip(i as int).len() == 0);
        None
    }

    /// The name of a type; see `ty_name`.
    pub fn make_ty_name(&mut self, ty: &Type) -> (r: Option<String>)
        ensures
            *final(self) == *old(self),
            opt_text(r) == ty_name(*ty, old(self).model().names, finder(old(self).spec_cache())),
        decreases ty,
    {
        let ghost names = self.model().names;
        let ghost find = finder(self.spec_cache());
        if let Some(k) = self.cache_position(ty) {
            let id = self.cache[k].1;
            assert(cache_index(self.spec_cache(), *ty) == Some(k as int));
            assert(self.spec_cache()[k as int].1 == id);
            assert(cache_find(self.spec_cache(), *ty) == Some(id));
            assert(find(*ty) == cache_find(self.spec_cache(), *ty));
            if let Some(n) = self.names.get(&id) {
                assert(names.contains_key(id) && names[id] == n@);
                return Some(n.clone());
            }
            assert(!names.contains_key(id));
        }
        match ty {
            Type::Scalar(x) => self.make_scalar_ty_name(x),
            Type::Vector(x) => self.make_vector_ty_name(x),
            Type::Matrix(x) => self.make_matrix_ty_name(x),
            Type::Array(a) => self.make_arr_ty_name(a),
            Type::Struct(x) => match &x.name {
                Some(n) => Some(sanitize_name(n.as_str())),
                None => None,
            },
            Type::DevicePointer(p) => self.make_pointer_ty_name(p),
            _ => None,
        }
    }

    /// The name of an array type; see `arr_ty_name`.
    pub fn make_arr_ty_name(&mut self, arr_ty: &ArrayType) -> (r: Option<String>)
        ensures
            *final(self) == *old(self),
            opt_text(r) == arr_ty_name(*arr_ty, old(self).model().names, finder(old(self).spec_cache())),
        decreases arr_ty,
    {
        let element = self.make_ty_name(&arr_ty.element_ty)?;
        let mut out = String::new();
        match arr_ty.element_count {
            Some(c) => {
                push_str(&mut out, "_arr_");
                push_str(&mut out, element.as_str());
                push_str(&mut out, "_uint_");
                push_dec(&mut out, c as u64);
            },
            None => {
                push_str(&mut out, "_runtimearr_");
                push_str(&mut out, element.as_str());
            },
        }
        Some(out)
    }

    /// The name of a pointer type; see `pointer_ty_name`.
    pub fn make_pointer_ty_name(&mut self, pointer_ty: &PointerType) -> (r: Option<String>)
        ensures
            *final(self) == *old(self),
            opt_text(r) == pointer_ty_name(
                *pointer_ty,
                old(self).model().names,
                finder(old(self).spec_cache()),
            ),
        decreases pointer_ty,
    {
        let mut out = String::new();
        push_str(&mut out, "_ptr_");
        push_str(&mut out, storage_class_text(pointer_ty.store_cls).as_str());
        push_str(&mut out, "_");
        match self.make_ty_name(&pointer_ty.pointee_ty) {
            Some(pointee) => {
                push_str(&mut out, pointee.as_str());
                Some(out)
            },
            None => match self.cache_position(&pointer_ty.pointee_ty) {
                Some(k) => {
                    assert(cache_find(self.spec_cache(), *pointer_ty.pointee_ty) == Some(self.cache@[k as int].1));
                    push_dec(&mut out, self.cache[k].1 as u64);
                    Some(out)
                },
                None => {
                    assert(finder(self.spec_cache())(*pointer_ty.pointee_ty) is None);
                    None
                },
            },
        }
    }

    /// Name the ids of the declared types, in order, and record each type's
    /// id in the cache; see `ty_step`. The cache holds copies of the types.
    pub fn collect_ty_names(&mut self, types: &[(u32, &Type)])
        requires
            old(self).wf(),
            counts_fit(old(self).model(), types@.len() as int),
        ensures
            final(self).wf(),
            ({
                let (m, c) = ty_all(
                    old(self).model(),
                    old(self).spec_cache(),
                    types@.map_values(|p: (u32, &Type)| (p.0, *p.1)),
                );
                final(self).model() == m && cache_like(final(self).spec_cache(), c)
            }),
    {
        let ghost items = types@.map_values(|p: (u32, &Type)| (p.0, *p.1));
        let ghost m0 = self.model();
        let ghost c0 = self.spec_cache();
        proof {
            assert(items.take(0) =~= Seq::<(u32, Type)>::empty());
            lemma_like_refl(c0);
        }
        let mut i: usize = 0;
        while i < types.len()
            invariant
                i <= types@.len(),
                self.wf(),
                items == types@.map_values(|p: (u32, &Type)| (p.0, *p.1)),
                self.model() == ty_all(m0, c0, items.take(i as int)).0,
                cache_like(self.spec_cache(), ty_all(m0, c0, items.take(i as int)).1),
                counts_fit(self.model(), types@.len() - i),
            decreases types@.len() - i,
        {
            let (id, ty) = types[i];
            let ghost sc = ty_all(m0, c0, items.take(i as int)).1;
            proof {
                assert(items.take(i + 1).drop_last() =~= items.take(i as int));
                assert(items[i as int] == (id, *ty));
                lemma_like_finder(self.spec_cache(), sc);
                lemma_like_index(self.spec_cache(), sc, *ty);
            }
            let name = self.make_ty_name(ty);
            let ghost m1 = ty_all(m0, c0, items.take(i as int)).0;
            proof {
                assert(items.take(i + 1).last() == (id, *ty));
                assert(ty_all(m0, c0, items.take(i + 1)) == ty_step(m1, sc, id, *ty));
            }
            match name {
                Some(n) => {
                    proof {
                        lemma_step_fits(self.model(), id, n@, types@.len() - i - 1);
                    }
                    self.assign(id, n);
                    let ghost before = self.spec_cache();
                    let ghost mm = self.model();
                    if self.cache_position(ty).is_none() {
                        let copy = ty.clone();
                        self.cache.push((copy, id));
                        proof {
                            lemma_push_like(before, sc, copy, *ty, id);
                        }
                    }
                    proof {
                        assert(self.model().names =~= mm.names);
                        assert(self.model().counts =~= mm.counts);
                    }
                },
                None => {
                    let ghost mm = self.model();
                    let ghost before = self.spec_cache();
                    match self.cache_position(ty) {
                        Some(k) => {
                            let (key, _) = self.cache.remove(k);
                            self.cache.insert(k, (key, id));
                            proof {
                                assert(self.spec_cache() =~= before.update(k as int, (before[k as int].0, id)));
                                lemma_update_like(before, sc, k as int, id);
                            }
                        },
                        None => {
                            let copy = ty.clone();
                            self.cache.push((copy, id));
                            proof {
                                lemma_push_like(before, sc, copy, *ty, id);
                            }
                        },
                    }
                    proof {
                        assert(self.model().names =~= mm.names);
                        assert(self.model().counts =~= mm.counts);
                        assert(counts_fit(self.model(), types@.len() - i - 1));
                    }
                },
            }
            i = i + 1;
        }
        assert(items.take(i as int) =~= items);
    }

    /// The name of a scalar type; see `scalar_ty_name`.
    pub fn make_scalar_ty_name(&mut self, scalar_ty: &ScalarType) -> (r: Option<String>)
        ensures
            *final(self) == *old(self),
            match scalar_ty_name(*scalar_ty) {
                Some(n) => r matches Some(s) && s@ == n,
                None => r is None,
            },
    {
        match scalar_ty {
            ScalarType::Void => Some(owned("void")),
            ScalarType::Boolean => Some(owned("bool")),
            ScalarType::Integer { bits, is_signed } => if *bits == 32 {
                if *is_signed {
                    Some(owned("int"))
                } else {
                    Some(owned("uint"))
                }
            } else {
                None
            },
            ScalarType::Float { bits } => if *bits == 32 {
                Some(owned("float"))
            } else if *bits == 64 {
                Some(owned("double"))
            } else {
                None
            },
        }
    }

    /// The name of a vector type; see `vector_ty_name`.
    pub fn make_vector_ty_name(&mut self, vector_ty: &VectorType) -> (r: Option<String>)
        ensures
            *final(self) == *old(self),
            match vector_ty_name(*vector_ty) {
                Some(n) => r matches Some(s) && s@ == n,
                None => r is None,
            },
    {
        let scalar = self.make_scalar_ty_name(&vector_ty.scalar_ty)?;
        let mut out = String::new();
        push_str(&mut out, "v");
        push_dec(&mut out, vector_ty.scalar_count as u64);
        push_str(&mut out, scalar.as_str());
        assert(out@ =~= "v"@ + dec_chars(vector_ty.scalar_count as nat) + scalar@);
        Some(out)
    }

    /// The name of a matrix type; see `matrix_ty_name`.
    pub fn make_matrix_ty_name(&mut self, matrix_ty: &MatrixType) -> (r: Option<String>)
        ensures
            *final(self) == *old(self),
            match matrix_ty_name(*matrix_ty) {
                Some(n) => r matches Some(s) && s@ == n,
                None => r is None,
            },
    {
        let vector = self.make_vector_ty_name(&matrix_ty.vector_ty)?;
        let mut out = String::new();
        push_str(&mut out, "mat");
        push_dec(&mut out, matrix_ty.vector_count as u64);
        push_str(&mut out, vector.as_str());
        Some(out)
    }

    /// The name of a constant; see `const_name`.
    pub fn make_const_name(&mut self, value: &ConstantValue) -> (r: Option<String>)
        ensures
            *final(self) == *old(self),
            match const_name(*value) {
                Some(n) => r matches Some(s) && s@ == n,
                None => r is None,
            },
    {
        let mut out = String::new();
        match value {
            ConstantValue::Bool(x) => {
                return Some(owned(if *x { "true" } else { "false" }));
            },
            ConstantValue::S32(x) => {
                push_str(&mut out, "int_");
                push_signed_dec(&mut out, *x as i64);
            },
            ConstantValue::U32(x) => {
                push_str(&mut out, "uint_");
                push_dec(&mut out, *x as u64);
            },
            _ => return None,
        }
        Some(sanitize_name(out.as_str()))
    }
}

proof fn lemma_count_none(counter: Seq<(String, u32)>, name: Seq<char>, i: int)
    requires
        name_count(counter, name) is None,
        0 <= i < counter.len(),
    ensures
        counter[i].0@ != name,
    decreases counter.len(),
{
    if i < counter.len() - 1 {
        assert(counter.drop_last()[i] == counter[i]);
        lemma_count_none(counter.drop_last(), name, i);
    }
}

proof fn lemma_count_at(counter: Seq<(String, u32)>, name: Seq<char>, k: int)
    requires
        0 <= k < counter.len(),
        counter[k].0@ == name,
        forall|i: int, j: int| 0 <= i < j < counter.len() ==> counter[i].0@ != counter[j].0@,
    ensures
        name_count(counter, name) == Some(counter[k].1),
    decreases counter.len(),
{
    if k < counter.len() - 1 {
        assert(counter.drop_last()[k] == counter[k]);
        assert(counter.last().0@ != name);
        lemma_count_at(counter.drop_last(), name, k);
    }
}

proof fn lemma_count_update(counter: Seq<(String, u32)>, name: Seq<char>, k: int, c: u32)
    requires
        0 <= k < counter.len(),
        counter[k].0@ == name,
        forall|i: int, j: int| 0 <= i < j < counter.len() ==> counter[i].0@ != counter[j].0@,
    ensures
        forall|i: int, j: int|
            0 <= i < j < counter.len() ==> counter.update(k, (counter[k].0, c))[i].0@
                != counter.update(k, (counter[k].0, c))[j].0@,
        name_count(counter.update(k, (counter[k].0, c)), name) == Some(c),
        forall|n: Seq<char>|
            n != name ==> name_count(counter.update(k, (counter[k].0, c)), n) == name_count(
                counter,
                n,
            ),
    decreases counter.len(),
{
    let u = counter.update(k, (counter[k].0, c));
    lemma_count_at(u, name, k);
    assert forall|n: Seq<char>| n != name implies name_count(u, n) == name_count(counter, n) by {
        lemma_count_other(counter, name, k, c, n);
    }
}

proof fn lemma_count_other(counter: Seq<(String, u32)>, name: Seq<char>, k: int, c: u32, n: Seq<
    char,
>)
    requires
        0 <= k < counter.len(),
        counter[k].0@ == name,
        n != name,
    ensures
        name_count(counter.update(k, (counter[k].0, c)), n) == name_count(counter, n),
    decreases counter.len(),
{
    let u = counter.update(k, (counter[k].0, c));
    if k == counter.len() - 1 {
        assert(u.drop_last() =~= counter.drop_last());
    } else {
        assert(u.drop_last() =~= counter.drop_last().update(k, (counter[k].0, c)));
        lemma_count_other(counter.drop_last(), name, k, c, n);
    }
}

} // verus!
