//! Descriptors for the record under transformation, and the binding policy
//! that maps each field to an environment-variable name.

use crate::names::{to_upper, upper_of};
use vstd::prelude::*;
use vstd::string::StringExecFns;

verus! {

/// One segment of a type path: an identifier and its generic arguments,
/// each argument kept as rendered source text.
#[derive(Debug, Clone, PartialEq, Eq)]
pub struct TypeSeg {
    pub ident: String,
    pub args: Vec<String>,
}

/// A type path as written in a field declaration; `Option<bool>` is a single
/// segment `Option` with the one argument `bool`.
#[derive(Debug, Clone, PartialEq, Eq)]
pub struct TypePath {
    pub segments: Vec<TypeSeg>,
}

/// A field attribute: its path, and the literal text when the attribute is a
/// name/value pair with a string value (`None` for any other attribute form).
#[derive(Debug, Clone, PartialEq, Eq)]
pub struct Attr {
    pub path: String,
    pub value: Option<String>,
}

/// A field of the record under transformation.
#[derive(Debug, Clone, PartialEq, Eq)]
pub struct FieldDesc {
    pub name: String,
    pub attrs: Vec<Attr>,
    pub ty: TypePath,
}

/// The record under transformation: its type name and its fields, in
/// declaration order.
#[derive(Debug, Clone, PartialEq, Eq)]
pub struct RecordDesc {
    pub name: String,
    pub fields: Vec<FieldDesc>,
}

/// A type is an optional wrapper iff its outer type name — the identifier of
/// the last segment of its path — is `Option`, so `Option<T>` and
/// `std::option::Option<T>` alike.
pub open spec fn is_option_spec(ty: TypePath) -> bool {
    ty.segments@.len() > 0 && ty.segments@.last().ident@ == "Option"@
}

/// The inner type of an optional wrapper: the first generic argument of the
/// last path segment, when that segment is `Option` and carries arguments.
pub open spec fn extract_option_inner_spec(ty: TypePath) -> Option<Seq<char>> {
    if ty.segments@.len() > 0 && ty.segments@.last().ident@ == "Option"@
        && ty.segments@.last().args@.len() > 0 {
        Some(ty.segments@.last().args@[0]@)
    } else {
        None
    }
}

/// A type whose optionality can be acted on: whenever it is recognized as an
/// optional wrapper, its inner type can also be extracted.
pub open spec fn option_shape_ok(ty: TypePath) -> bool {
    is_option_spec(ty) ==> extract_option_inner_spec(ty) is Some
}

/// The environment-variable name one attribute assigns: the value of a
/// string name/value pair on the path `env`, if that is what the attribute is.
pub open spec fn attr_env_value(a: Attr) -> Option<Seq<char>> {
    if a.path@ == "env"@ && a.value is Some {
        Some(a.value->0@)
    } else {
        None
    }
}

/// The explicit environment-variable name among a field's attributes: the
/// value of the first `env` string attribute, if any.
pub open spec fn find_env_attr_spec(attrs: Seq<Attr>) -> Option<Seq<char>>
    decreases attrs.len(),
{
    if attrs.len() == 0 {
        None
    } else if attr_env_value(attrs[0]) is Some {
        attr_env_value(attrs[0])
    } else {
        find_env_attr_spec(attrs.skip(1))
    }
}

/// The environment variable bound to a field: the explicit annotation when
/// present, else the field name rendered in uppercase.
pub open spec fn env_name_spec(f: FieldDesc) -> Seq<char> {
    match find_env_attr_spec(f.attrs@) {
        Some(v) => v,
        None => upper_of(f.name@),
    }
}

/// Whether `ty` is an `Option` wrapper.
pub fn is_option_type(ty: &TypePath) -> (r: bool)
    ensures
        r == is_option_spec(*ty),
{
    let n: usize = ty.segments.len();
    if n > 0 {
        let opt = String::from_str("Option");
        let seg: &TypeSeg = &ty.segments[n - 1];
        seg.ident == opt
    } else {
        false
    }
}

/// The inner type of an `Option` wrapper, when `ty` has that shape.
pub fn extract_option_inner_type(ty: &TypePath) -> (r: Option<String>)
    ensures
        (r is Some) == (extract_option_inner_spec(*ty) is Some),
        r matches Some(s) ==> Some(s@) == extract_option_inner_spec(*ty),
{
    let n: usize = ty.segments.len();
    if n == 0 {
        return None;
    }
    let last: &TypeSeg = &ty.segments[n - 1];
    let opt = String::from_str("Option");
    if last.ident == opt && last.args.len() > 0 {
        Some(last.args[0].clone())
    } else {
        None
    }
}

/// The value of the first `env` string attribute among `attrs`, if any.
pub fn find_env_attr(attrs: &Vec<Attr>) -> (r: Option<String>)
    ensures
        (r is Some) == (find_env_attr_spec(attrs@) is Some),
        r matches Some(s) ==> Some(s@) == find_env_attr_spec(attrs@),
{
    let env_key = String::from_str("env");
    let n: usize = attrs.len();
    let mut i: usize = 0;
    proof {
        assert(attrs@.skip(0) =~= attrs@);
    }
    while i < n
        invariant
            0 <= i <= n,
            n == attrs@.len(),
            env_key@ == "env"@,
            find_env_attr_spec(attrs@) == find_env_attr_spec(attrs@.skip(i as int)),
        decreases n - i,
    {
        let a: &Attr = &attrs[i];
        proof {
            assert(attrs@.skip(i as int)[0] == attrs@[i as int]);
        }
        if a.path == env_key {
            match &a.value {
                Some(v) => {
                    return Some(v.clone());
                },
                None => {},
            }
        }
        proof {
            assert(attrs@.skip(i as int).skip(1) =~= attrs@.skip(i as int + 1));
        }
        i = i + 1;
    }
    None
}

/// The environment variable bound to `f`: the explicit `env` annotation when
/// present, else the field name in uppercase.
pub fn env_name_for(f: &FieldDesc) -> (r: String)
    ensures
        r@ == env_name_spec(*f),
{
    match find_env_attr(&f.attrs) {
        Some(name) => name,
        None => to_upper(&f.name),
    }
}

} // verus!
