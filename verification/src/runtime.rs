//! The run-time behaviour of the generated constructor, one field at a time:
//! read the field's variable, parse its text, and abort on a missing
//! required variable or on any unparsable value.

use crate::envmap::EnvMap;
use crate::model::{
    env_name_spec, extract_option_inner_spec, is_option_spec, env_name_for,
    extract_option_inner_type, is_option_type, FieldDesc, TypePath,
};
use crate::parse::{
    parse_prim, prim_parse_spec, prim_type_of, prim_type_of_spec, prim_value_model, PrimType,
    PrimValue, PrimValueModel,
};
use vstd::prelude::*;

verus! {

/// The binding of one field: the variable read at run time, whether the
/// field is optional, and the primitive type its text is parsed into.
#[derive(Debug, PartialEq, Eq)]
pub struct Binding {
    pub env_name: String,
    pub optional: bool,
    pub ty: PrimType,
}

/// The value the generated constructor assigns to a field.
#[derive(Debug, PartialEq, Eq)]
pub enum FieldValue {
    Required(PrimValue),
    OptPresent(PrimValue),
    OptAbsent,
}

/// Why the generated constructor aborts at run time, naming the variable:
/// a required field's variable is unset, or a set variable's text does not
/// parse at the field's type.
#[derive(Debug, PartialEq, Eq)]
pub enum RunError {
    MissingVar { var: String },
    Unparsable { var: String },
}

/// The mathematical value of a constructed field.
pub enum FieldValueModel {
    Required(PrimValueModel),
    OptPresent(PrimValueModel),
    OptAbsent,
}

/// The mathematical value of a run-time abort.
pub enum RunErrorModel {
    MissingVar(Seq<char>),
    Unparsable(Seq<char>),
}

/// The model of a constructed field value.
pub open spec fn field_value_model(v: FieldValue) -> FieldValueModel {
    match v {
        FieldValue::Required(p) => FieldValueModel::Required(prim_value_model(p)),
        FieldValue::OptPresent(p) => FieldValueModel::OptPresent(prim_value_model(p)),
        FieldValue::OptAbsent => FieldValueModel::OptAbsent,
    }
}

/// The model of a run-time abort.
pub open spec fn run_error_model(e: RunError) -> RunErrorModel {
    match e {
        RunError::MissingVar { var } => RunErrorModel::MissingVar(var@),
        RunError::Unparsable { var } => RunErrorModel::Unparsable(var@),
    }
}

/// The model of one field's run-time outcome.
pub open spec fn run_result_model(r: Result<FieldValue, RunError>) -> Result<
    FieldValueModel,
    RunErrorModel,
> {
    match r {
        Ok(v) => Ok(field_value_model(v)),
        Err(e) => Err(run_error_model(e)),
    }
}

/// What the generated code does for one binding under a run-time
/// environment: an unset variable is the empty optional value for an
/// optional field and an abort for a required one; a set variable's text is
/// parsed at the binding's type, and a parse failure aborts for optional and
/// required fields alike.
pub open spec fn eval_binding_spec(b: Binding, env: EnvMap) -> Result<
    FieldValueModel,
    RunErrorModel,
> {
    match env.lookup(b.env_name@) {
        None => if b.optional {
            Ok(FieldValueModel::OptAbsent)
        } else {
            Err(RunErrorModel::MissingVar(b.env_name@))
        },
        Some(text) => match prim_parse_spec(b.ty, text) {
            None => Err(RunErrorModel::Unparsable(b.env_name@)),
            Some(v) => Ok(
                if b.optional {
                    FieldValueModel::OptPresent(v)
                } else {
                    FieldValueModel::Required(v)
                },
            ),
        },
    }
}

/// Evaluate one binding against a run-time environment, exactly as the
/// generated constructor does.
pub fn eval_binding(b: &Binding, env: &EnvMap) -> (r: Result<FieldValue, RunError>)
    ensures
        run_result_model(r) == eval_binding_spec(*b, *env),
{
    match env.get(&b.env_name) {
        None => if b.optional {
            Ok(FieldValue::OptAbsent)
        } else {
            Err(RunError::MissingVar { var: b.env_name.clone() })
        },
        Some(text) => match parse_prim(b.ty, &text) {
            None => Err(RunError::Unparsable { var: b.env_name.clone() }),
            Some(v) => Ok(
                if b.optional {
                    FieldValue::OptPresent(v)
                } else {
                    FieldValue::Required(v)
                },
            ),
        },
    }
}

/// The declared type name of a required field: the identifier of its single
/// path segment, when the path has one segment without arguments.
pub open spec fn required_type_name(ty: TypePath) -> Option<Seq<char>> {
    if ty.segments@.len() == 1 && ty.segments@[0].args@.len() == 0 {
        Some(ty.segments@[0].ident@)
    } else {
        None
    }
}

/// The primitive type a field's value is parsed into: the inner type of an
/// optional wrapper, else the declared type itself.
pub open spec fn binding_ty_spec(f: FieldDesc) -> Option<PrimType> {
    if is_option_spec(f.ty) {
        match extract_option_inner_spec(f.ty) {
            Some(inner) => prim_type_of_spec(inner),
            None => None,
        }
    } else {
        match required_type_name(f.ty) {
            Some(n) => prim_type_of_spec(n),
            None => None,
        }
    }
}

/// The binding of a field: its environment-variable name, its optionality,
/// and its parse type. `None` when the field's type is not one of the
/// primitive types modeled here.
pub fn binding_for(f: &FieldDesc) -> (r: Option<Binding>)
    ensures
        (r is Some) == (binding_ty_spec(*f) is Some),
        r matches Some(b) ==> {
            &&& b.env_name@ == env_name_spec(*f)
            &&& b.optional == is_option_spec(f.ty)
            &&& Some(b.ty) == binding_ty_spec(*f)
        },
{
    let env_name = env_name_for(f);
    if is_option_type(&f.ty) {
        match extract_option_inner_type(&f.ty) {
            Some(inner) => match prim_type_of(&inner) {
                Some(t) => Some(Binding { env_name, optional: true, ty: t }),
                None => None,
            },
            None => None,
        }
    } else if f.ty.segments.len() == 1 {
        let seg = &f.ty.segments[0];
        if seg.args.len() == 0 {
            match prim_type_of(&seg.ident) {
                Some(t) => Some(Binding { env_name, optional: false, ty: t }),
                None => None,
            }
        } else {
            None
        }
    } else {
        None
    }
}

} // verus!
