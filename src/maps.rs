//! The insertion-ordered maps of generated content (`indexmap::IndexMap`,
//! keyed by name) and the snake-case conversion of `convert_case`.
use crate::route::{GuardModel, ModuleModel, SeedGuard, SeedModule, SeedView, ViewModel};
use crate::text::ascii_text;
use indexmap::IndexMap;
use vstd::prelude::*;

verus! {

#[verifier::external_type_specification]
#[verifier::external_body]
#[verifier::reject_recursive_types(K)]
#[verifier::reject_recursive_types(V)]
#[verifier::reject_recursive_types(S)]
pub struct ExIndexMap<K, V, S>(IndexMap<K, V, S>);

/// `k` is the key of an entry of `e`.
pub open spec fn has_key<V>(e: Seq<(Seq<char>, V)>, k: Seq<char>) -> bool {
    exists|i: int| 0 <= i < e.len() && e[i].0 == k
}

/// No two entries of `e` have the same key.
pub open spec fn keys_unique<V>(e: Seq<(Seq<char>, V)>) -> bool {
    forall|i: int, j: int| 0 <= i < e.len() && 0 <= j < e.len() && i != j ==> e[i].0 != e[j].0
}

/// The entries after inserting `v` under `k`: an existing key keeps its
/// place and takes the new value; a new key goes last.
pub open spec fn insert_entry<V>(e: Seq<(Seq<char>, V)>, k: Seq<char>, v: V) -> Seq<
    (Seq<char>, V),
> {
    if has_key(e, k) {
        let i = choose|i: int| 0 <= i < e.len() && e[i].0 == k;
        e.update(i, (k, v))
    } else {
        e.push((k, v))
    }
}

pub proof fn lemma_insert_keeps_unique<V>(e: Seq<(Seq<char>, V)>, k: Seq<char>, v: V)
    requires
        keys_unique(e),
    ensures
        keys_unique(insert_entry(e, k, v)),
        has_key(insert_entry(e, k, v), k),
        forall|q: Seq<char>| has_key(e, q) ==> has_key(insert_entry(e, k, v), q),
{
    let r = insert_entry(e, k, v);
    if has_key(e, k) {
        let i = choose|i: int| 0 <= i < e.len() && e[i].0 == k;
        assert(r[i].0 == k);
        assert forall|q: Seq<char>| has_key(e, q) implies has_key(r, q) by {
            let j = choose|j: int| 0 <= j < e.len() && e[j].0 == q;
            assert(r[j].0 == q);
        }
    } else {
        assert(r[e.len() as int].0 == k);
        assert forall|q: Seq<char>| has_key(e, q) implies has_key(r, q) by {
            let j = choose|j: int| 0 <= j < e.len() && e[j].0 == q;
            assert(r[j].0 == q);
        }
    }
}

/// What a map of local views holds, in order.
pub uninterp spec fn view_entries(m: IndexMap<String, SeedView>) -> Seq<(Seq<char>, ViewModel)>;

/// What a map of guards holds, in order.
pub uninterp spec fn guard_entries(m: IndexMap<String, SeedGuard>) -> Seq<(Seq<char>, GuardModel)>;

/// What a map of modules holds, in order.
pub uninterp spec fn module_entries(m: IndexMap<String, SeedModule>) -> Seq<
    (Seq<char>, ModuleModel),
>;

/// Relies on `IndexMap::new`: a new map is empty.
#[verifier::external_body]
pub(crate) fn new_view_map() -> (r: IndexMap<String, SeedView>)
    ensures
        view_entries(r) == Seq::<(Seq<char>, ViewModel)>::empty(),
{
    IndexMap::new()
}

/// Relies on `IndexMap::insert`: an existing key keeps its place and takes
/// the new value; a new key is inserted last.
#[verifier::external_body]
pub(crate) fn insert_view(m: &mut IndexMap<String, SeedView>, k: String, v: SeedView)
    ensures
        view_entries(*final(m)) == insert_entry(view_entries(*old(m)), k@, v@),
{
    m.insert(k, v);
}

/// Relies on `IndexMap::len`: the number of entries.
#[verifier::external_body]
pub(crate) fn view_map_len(m: &IndexMap<String, SeedView>) -> (r: usize)
    ensures
        r == view_entries(*m).len(),
{
    m.len()
}

/// Relies on `IndexMap::get_index`: the entry at position `i`.
#[verifier::external_body]
pub(crate) fn view_at(m: &IndexMap<String, SeedView>, i: usize) -> (r: (&String, &SeedView))
    requires
        i < view_entries(*m).len(),
    ensures
        view_entries(*m)[i as int] == (r.0@, r.1@),
{
    m.get_index(i).unwrap()
}

/// Relies on `IndexMap::new`: a new map is empty.
#[verifier::external_body]
pub(crate) fn new_guard_map() -> (r: IndexMap<String, SeedGuard>)
    ensures
        guard_entries(r) == Seq::<(Seq<char>, GuardModel)>::empty(),
{
    IndexMap::new()
}

/// Relies on `IndexMap::insert`: an existing key keeps its place and takes
/// the new value; a new key is inserted last.
#[verifier::external_body]
pub(crate) fn insert_guard(m: &mut IndexMap<String, SeedGuard>, k: String, v: SeedGuard)
    ensures
        guard_entries(*final(m)) == insert_entry(guard_entries(*old(m)), k@, v@),
{
    m.insert(k, v);
}

/// Relies on `IndexMap::len`: the number of entries.
#[verifier::external_body]
pub(crate) fn guard_map_len(m: &IndexMap<String, SeedGuard>) -> (r: usize)
    ensures
        r == guard_entries(*m).len(),
{
    m.len()
}

/// Relies on `IndexMap::get_index`: the entry at position `i`.
#[verifier::external_body]
pub(crate) fn guard_at(m: &IndexMap<String, SeedGuard>, i: usize) -> (r: (&String, &SeedGuard))
    requires
        i < guard_entries(*m).len(),
    ensures
        guard_entries(*m)[i as int] == (r.0@, r.1@),
{
    m.get_index(i).unwrap()
}

/// Relies on `IndexMap::get_index_of`: the position of the entry with key
/// `k`, if there is one.
#[verifier::external_body]
pub(crate) fn guard_index_of(m: &IndexMap<String, SeedGuard>, k: &str) -> (r: Option<usize>)
    ensures
        match r {
            Some(i) => i < guard_entries(*m).len() && guard_entries(*m)[i as int].0 == k@,
            None => !has_key(guard_entries(*m), k@),
        },
{
    m.get_index_of(k)
}

/// Relies on `IndexMap::new`: a new map is empty.
#[verifier::external_body]
pub(crate) fn new_module_map() -> (r: IndexMap<String, SeedModule>)
    ensures
        module_entries(r) == Seq::<(Seq<char>, ModuleModel)>::empty(),
{
    IndexMap::new()
}

/// Relies on `IndexMap::insert`: an existing key keeps its place and takes
/// the new value; a new key is inserted last.
#[verifier::external_body]
pub(crate) fn insert_module(m: &mut IndexMap<String, SeedModule>, k: String, v: SeedModule)
    ensures
        module_entries(*final(m)) == insert_entry(module_entries(*old(m)), k@, v.contents()),
{
    m.insert(k, v);
}

/// The snake-case form of an identifier, as `convert_case` computes it.
pub uninterp spec fn snake_case_of(s: Seq<char>) -> Seq<char>;

/// Relies on `convert_case::Casing::to_case` with `Case::Snake`; the result
/// depends on the characters of `s` alone. Its word splitting mixes
/// character counts and byte offsets, so only ASCII text is safe from a
/// panic.
#[verifier::external_body]
pub(crate) fn to_snake_case(s: &str) -> (r: String)
    requires
        ascii_text(s@),
    ensures
        r@ == snake_case_of(s@),
{
    convert_case::Casing::to_case(s, convert_case::Case::Snake)
}

} // verus!
