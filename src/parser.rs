//! The items read from a source file (the route enum and the model struct),
//! and the attribute mini-language attached to them:
//! `#[modules_path = "DIR"]`, `#[view = "SCOPE => VIEW"]` and
//! `#[guard = "SCOPE => GUARD => REDIRECT"]`.
use crate::text::{
    after_arrow, head_segment, same_text, split_arrow, trim, trim_spec,
};
use vstd::prelude::*;

verus! {

/// An attribute of an item. `value` holds the string literal of a
/// `#[key = "value"]` attribute, and is `None` for any other form
/// (`#[key]`, `#[key(...)]`, a non-string literal).
#[derive(Debug, Clone, PartialEq)]
pub struct Attribute {
    pub key: String,
    pub value: Option<String>,
}

/// The shape of a route variant's payload.
#[derive(Debug, Clone, PartialEq)]
pub enum VariantShape {
    /// `Home`
    Unit,
    /// `Dashboard(pages::dashboard::Routes)`
    Tuple,
    /// `Admin { id: String, children: Routes }`: the field names.
    Named(Vec<String>),
}

/// One variant of the route enum.
#[derive(Debug, Clone, PartialEq)]
pub struct RouteVariant {
    pub name: String,
    pub shape: VariantShape,
    pub attrs: Vec<Attribute>,
}

/// The route enum: its own attributes and its variants, in declaration order.
#[derive(Debug, Clone, PartialEq)]
pub struct RoutesEnum {
    pub attrs: Vec<Attribute>,
    pub variants: Vec<RouteVariant>,
}

/// A field of the model struct. `ty` is the field's type as written out
/// token by token; a positional field has an empty `name`.
#[derive(Debug, Clone, PartialEq)]
pub struct ModelField {
    pub name: String,
    pub ty: String,
}

/// The model struct's fields, in declaration order.
#[derive(Debug, Clone, PartialEq)]
pub struct ModelStruct {
    pub fields: Vec<ModelField>,
}

/// A malformed attribute: an authoring mistake that stops generation.
#[derive(Debug, Clone, PartialEq)]
pub enum AttributeError {
    /// An attribute with this key that is not of the form `#[key = "..."]`.
    NotAString(String),
    /// More than one attribute with this key on one item.
    Multiple(String),
    /// A `view` value without `=>`: `"SCOPE => VIEW"` was expected.
    BadView(String),
    /// A `guard` value with fewer than two `=>`:
    /// `"SCOPE => GUARD => REDIRECT"` was expected.
    BadGuard(String),
}

/// A parsed `#[view = "SCOPE => VIEW"]`.
#[derive(Debug, Clone, PartialEq)]
pub struct ViewAttribute {
    pub scope: String,
    pub view: String,
}

/// A parsed `#[guard = "SCOPE => GUARD => REDIRECT"]`.
#[derive(Debug, Clone, PartialEq)]
pub struct GuardAttribute {
    pub scope: String,
    pub guard: String,
    pub redirect: String,
}

pub open spec fn value_view(v: Option<String>) -> Option<Seq<char>> {
    match v {
        Some(s) => Some(s@),
        None => None,
    }
}

/// The values of the attributes of `attrs` whose key is `key`, in order.
pub open spec fn values_for(attrs: Seq<Attribute>, key: Seq<char>) -> Seq<Option<Seq<char>>>
    decreases attrs.len(),
{
    if attrs.len() == 0 {
        Seq::empty()
    } else {
        let rest = values_for(attrs.drop_last(), key);
        if attrs.last().key@ == key {
            rest.push(value_view(attrs.last().value))
        } else {
            rest
        }
    }
}

pub enum AttrLookup {
    Malformed,
    Many,
    Absent,
    Found(Seq<char>),
}

/// What an item's attributes say of `key`: a malformed one wins over a
/// repeated key; one well-formed attribute gives its value.
pub open spec fn lookup_spec(attrs: Seq<Attribute>, key: Seq<char>) -> AttrLookup {
    let vals = values_for(attrs, key);
    if exists|i: int| 0 <= i < vals.len() && vals[i] is None {
        AttrLookup::Malformed
    } else if vals.len() > 1 {
        AttrLookup::Many
    } else if vals.len() == 0 {
        AttrLookup::Absent
    } else {
        AttrLookup::Found(vals[0]->Some_0)
    }
}

/// The value of one attribute if its key is `attribute_name`: `Ok(None)` for
/// another key, an error for the right key in the wrong form.
pub fn get_string_from_attribute(attribute_name: &str, attr: &Attribute) -> (r: Result<
    Option<String>,
    AttributeError,
>)
    ensures
        attr.key@ != attribute_name@ ==> r == Ok::<Option<String>, AttributeError>(None),
        attr.key@ == attribute_name@ ==> match attr.value {
            Some(v) => r is Ok && r->Ok_0 is Some && r->Ok_0->Some_0@ == v@,
            None => r is Err && r->Err_0 == AttributeError::NotAString(attr.key),
        },
{
    if !same_text(attr.key.as_str(), attribute_name) {
        return Ok(None);
    }
    match &attr.value {
        Some(v) => Ok(Some(v.clone())),
        None => Err(AttributeError::NotAString(attr.key.clone())),
    }
}

/// The single string value of the attribute `key`; `None` when no attribute
/// has that key.
pub fn find_attribute_value(attrs: &Vec<Attribute>, key: &str) -> (r: Result<
    Option<String>,
    AttributeError,
>)
    ensures
        match lookup_spec(attrs@, key@) {
            AttrLookup::Malformed => r matches Err(AttributeError::NotAString(_)),
            AttrLookup::Many => r matches Err(AttributeError::Multiple(_)),
            AttrLookup::Absent => r matches Ok(None),
            AttrLookup::Found(v) => r matches Ok(Some(s)) && s@ == v,
        },
{
    let mut found: Option<String> = None;
    let mut count: usize = 0;
    let mut i: usize = 0;
    while i < attrs.len()
        invariant
            i <= attrs.len(),
            count == values_for(attrs@.subrange(0, i as int), key@).len(),
            count <= i,
            forall|j: int|
                0 <= j < count ==> (#[trigger] values_for(attrs@.subrange(0, i as int), key@)[j])
                    is Some,
            count == 0 ==> found is None,
            count >= 1 ==> found is Some && values_for(attrs@.subrange(0, i as int), key@)[0]
                == Some(found->Some_0@),
        decreases attrs.len() - i,
    {
        let ghost before = values_for(attrs@.subrange(0, i as int), key@);
        let ghost after = values_for(attrs@.subrange(0, i + 1), key@);
        proof {
            assert(attrs@.subrange(0, i as int) =~= attrs@.subrange(0, i + 1).drop_last());
            assert(attrs@.subrange(0, i + 1).last() == attrs@[i as int]);
            if attrs@[i as int].key@ == key@ {
                assert(after == before.push(value_view(attrs@[i as int].value)));
            } else {
                assert(after == before);
            }
        }
        match get_string_from_attribute(key, &attrs[i]) {
            Err(e) => {
                proof {
                    let vals = values_for(attrs@, key@);
                    lemma_values_prefix(attrs@, key@, i as int + 1);
                    assert(after[count as int] is None);
                    assert(vals[count as int] is None);
                    assert(lookup_spec(attrs@, key@) is Malformed);
                }
                return Err(e);
            },
            Ok(None) => {},
            Ok(Some(v)) => {
                if count == 0 {
                    found = Some(v);
                }
                count = count + 1;
            },
        }
        i = i + 1;
    }
    assert(attrs@.subrange(0, i as int) =~= attrs@);
    let ghost vals = values_for(attrs@, key@);
    assert(forall|j: int| 0 <= j < vals.len() ==> vals[j] is Some);
    assert(!(lookup_spec(attrs@, key@) is Malformed));
    if count > 1 {
        Err(AttributeError::Multiple(String::from_str(key)))
    } else {
        Ok(found)
    }
}

proof fn lemma_values_prefix(attrs: Seq<Attribute>, key: Seq<char>, k: int)
    requires
        0 <= k <= attrs.len(),
    ensures
        values_for(attrs.subrange(0, k), key).len() <= values_for(attrs, key).len(),
        forall|j: int|
            0 <= j < values_for(attrs.subrange(0, k), key).len() ==> values_for(attrs, key)[j]
                == #[trigger] values_for(attrs.subrange(0, k), key)[j],
    decreases attrs.len() - k,
{
    if k < attrs.len() {
        lemma_values_prefix(attrs, key, k + 1);
        assert(attrs.subrange(0, k) =~= attrs.subrange(0, k + 1).drop_last());
        let short = values_for(attrs.subrange(0, k), key);
        let long = values_for(attrs.subrange(0, k + 1), key);
        assert(forall|j: int| 0 <= j < short.len() ==> long[j] == short[j]);
    } else {
        assert(attrs.subrange(0, k) =~= attrs);
    }
}

/// Reads `#[modules_path = "DIR"]` on the route enum: `Some(DIR)` when
/// present, even when `DIR` is empty or nested (`check_routes` refuses
/// those); a malformed or repeated attribute is reported as an error.
pub fn read_modules_path(attrs: &Vec<Attribute>) -> (r: Result<Option<String>, AttributeError>)
    ensures
        match lookup_spec(attrs@, "modules_path"@) {
            AttrLookup::Malformed => r matches Err(AttributeError::NotAString(_)),
            AttrLookup::Many => r matches Err(AttributeError::Multiple(_)),
            AttrLookup::Absent => r matches Ok(None),
            AttrLookup::Found(v) => r matches Ok(Some(s)) && s@ == v,
        },
{
    find_attribute_value(attrs, "modules_path")
}

/// The scope and view name of a `view` value, or `None` when it has no `=>`.
pub open spec fn view_parts(v: Seq<char>) -> Option<(Seq<char>, Seq<char>)> {
    match after_arrow(v) {
        Some(rest) => Some((trim_spec(head_segment(v)), trim_spec(head_segment(rest)))),
        None => None,
    }
}

/// The scope, guard name and redirect view name of a `guard` value, or
/// `None` when it has fewer than two `=>`.
pub open spec fn guard_parts(v: Seq<char>) -> Option<(Seq<char>, Seq<char>, Seq<char>)> {
    match after_arrow(v) {
        Some(rest) => match after_arrow(rest) {
            Some(last) => Some(
                (
                    trim_spec(head_segment(v)),
                    trim_spec(head_segment(rest)),
                    trim_spec(head_segment(last)),
                ),
            ),
            None => None,
        },
        None => None,
    }
}

/// What a variant's `view` attribute says: `Ok(None)` when it has none (or
/// an empty one).
pub open spec fn view_attribute_spec(attrs: Seq<Attribute>) -> Result<
    Option<(Seq<char>, Seq<char>)>,
    (),
> {
    match lookup_spec(attrs, "view"@) {
        AttrLookup::Malformed => Err(()),
        AttrLookup::Many => Err(()),
        AttrLookup::Absent => Ok(None),
        AttrLookup::Found(v) => if v.len() == 0 {
            Ok(None)
        } else {
            match view_parts(v) {
                Some(p) => Ok(Some(p)),
                None => Err(()),
            }
        },
    }
}

/// What a variant's `guard` attribute says: `Ok(None)` when it has none (or
/// an empty one).
pub open spec fn guard_attribute_spec(attrs: Seq<Attribute>) -> Result<
    Option<(Seq<char>, Seq<char>, Seq<char>)>,
    (),
> {
    match lookup_spec(attrs, "guard"@) {
        AttrLookup::Malformed => Err(()),
        AttrLookup::Many => Err(()),
        AttrLookup::Absent => Ok(None),
        AttrLookup::Found(v) => if v.len() == 0 {
            Ok(None)
        } else {
            match guard_parts(v) {
                Some(p) => Ok(Some(p)),
                None => Err(()),
            }
        },
    }
}

/// Reads `#[view = "SCOPE => VIEW"]`, trimming both parts; a malformed
/// attribute is reported as an error.
pub fn read_view_attribute(attrs: &Vec<Attribute>) -> (r: Result<
    Option<ViewAttribute>,
    AttributeError,
>)
    ensures
        match view_attribute_spec(attrs@) {
            Err(_) => r is Err,
            Ok(None) => r matches Ok(None),
            Ok(Some(p)) => r matches Ok(Some(a)) && a.scope@ == p.0 && a.view@ == p.1,
        },
{
    match find_attribute_value(attrs, "view") {
        Err(e) => Err(e),
        Ok(None) => Ok(None),
        Ok(Some(v)) => {
            if v.unicode_len() == 0 {
                return Ok(None);
            }
            let (scope, rest) = split_arrow(v.as_str());
            match rest {
                None => Err(AttributeError::BadView(v)),
                Some(rest) => {
                    let (name, _) = split_arrow(rest.as_str());
                    Ok(
                        Some(
                            ViewAttribute {
                                scope: trim(scope.as_str()),
                                view: trim(name.as_str()),
                            },
                        ),
                    )
                },
            }
        },
    }
}

/// Reads `#[guard = "SCOPE => GUARD => REDIRECT"]`, trimming the three
/// parts; a malformed attribute is reported as an error.
pub fn read_guard_attribute(attrs: &Vec<Attribute>) -> (r: Result<
    Option<GuardAttribute>,
    AttributeError,
>)
    ensures
        match guard_attribute_spec(attrs@) {
            Err(_) => r is Err,
            Ok(None) => r matches Ok(None),
            Ok(Some(p)) => r matches Ok(Some(a)) && a.scope@ == p.0 && a.guard@ == p.1
                && a.redirect@ == p.2,
        },
{
    match find_attribute_value(attrs, "guard") {
        Err(e) => Err(e),
        Ok(None) => Ok(None),
        Ok(Some(v)) => {
            if v.unicode_len() == 0 {
                return Ok(None);
            }
            let (scope, rest) = split_arrow(v.as_str());
            match rest {
                None => Err(AttributeError::BadGuard(v)),
                Some(rest) => {
                    let (guard, last) = split_arrow(rest.as_str());
                    match last {
                        None => Err(AttributeError::BadGuard(v)),
                        Some(last) => {
                            let (redirect, _) = split_arrow(last.as_str());
                            Ok(
                                Some(
                                    GuardAttribute {
                                        scope: trim(scope.as_str()),
                                        guard: trim(guard.as_str()),
                                        redirect: trim(redirect.as_str()),
                                    },
                                ),
                            )
                        },
                    }
                },
            }
        },
    }
}

/// `modules_path` is absent, or names one directory: not empty, no `/`.
pub open spec fn modules_path_ok(attrs: Seq<Attribute>) -> bool {
    match lookup_spec(attrs, "modules_path"@) {
        AttrLookup::Absent => true,
        AttrLookup::Found(v) => v.len() > 0 && !v.contains('/'),
        _ => false,
    }
}

/// `#[modules_path = "DIR"]` on the route enum: `Some(DIR)` when present.
/// A malformed, repeated, empty or nested path stops generation, so it is
/// left out here (see `check_routes`).
pub fn modules_path(attrs: &Vec<Attribute>) -> (r: Option<String>)
    requires
        modules_path_ok(attrs@),
    ensures
        match lookup_spec(attrs@, "modules_path"@) {
            AttrLookup::Found(v) => r matches Some(s) && s@ == v,
            _ => r is None,
        },
{
    match read_modules_path(attrs) {
        Ok(p) => p,
        Err(_) => unreached(),
    }
}

/// The scope and view name of a variant's `#[view = "SCOPE => VIEW"]`,
/// trimmed. A malformed or repeated `view` attribute stops generation, so it
/// is left out here (see `check_routes`).
pub fn get_view_attribute(attrs: &Vec<Attribute>) -> (r: Option<ViewAttribute>)
    requires
        view_attribute_spec(attrs@) is Ok,
    ensures
        match view_attribute_spec(attrs@) {
            Ok(Some(p)) => r matches Some(a) && a.scope@ == p.0 && a.view@ == p.1,
            _ => r is None,
        },
{
    match read_view_attribute(attrs) {
        Ok(a) => a,
        Err(_) => unreached(),
    }
}

/// The scope, guard name and redirect view of a variant's
/// `#[guard = "SCOPE => GUARD => REDIRECT"]`, trimmed. A malformed or
/// repeated `guard` attribute stops generation, so it is left out here (see
/// `check_routes`).
pub fn get_guard_attribute(attrs: &Vec<Attribute>) -> (r: Option<GuardAttribute>)
    requires
        guard_attribute_spec(attrs@) is Ok,
    ensures
        match guard_attribute_spec(attrs@) {
            Ok(Some(p)) => r matches Some(a) && a.scope@ == p.0 && a.guard@ == p.1 && a.redirect@
                == p.2,
            _ => r is None,
        },
{
    match read_guard_attribute(attrs) {
        Ok(a) => a,
        Err(_) => unreached(),
    }
}

} // verus!
