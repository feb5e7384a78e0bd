//! Generation of the constructor: one initialization plan per field, with
//! the generation-time check that every required field's variable is set.

use crate::envmap::EnvMap;
use crate::model::{
    env_name_spec, extract_option_inner_spec, is_option_spec, option_shape_ok, env_name_for,
    extract_option_inner_type, is_option_type, FieldDesc, RecordDesc, TypePath,
};
use vstd::pervasive::unreached;
use vstd::prelude::*;

verus! {

/// How the generated code obtains a field's value: a required field parses
/// the variable's text at the declared type; an optional field parses at the
/// inner type only when the variable is set.
#[derive(Debug, PartialEq, Eq)]
pub enum ParsePlan {
    Required { ty: TypePath },
    Optional { inner: String },
}

/// The initialization of one field in the generated constructor.
#[derive(Debug, PartialEq, Eq)]
pub struct FieldInit {
    pub field_name: String,
    pub env_name: String,
    pub plan: ParsePlan,
}

/// Why generation aborts: a required field's variable is not set in the
/// generation-time environment.
#[derive(Debug, PartialEq, Eq)]
pub enum GenError {
    MissingVar { var: String },
}

/// The generated constructor: the type it is attached to, and its field
/// initializations in declaration order.
#[derive(Debug, PartialEq, Eq)]
pub struct GeneratedImpl {
    pub name: String,
    pub inits: Vec<FieldInit>,
}

/// Whether generation succeeds for one field: optional fields always do;
/// a required field only when its variable is set at generation time.
pub open spec fn field_gen_ok(f: FieldDesc, env: EnvMap) -> bool {
    is_option_spec(f.ty) || env.contains(env_name_spec(f))
}

/// The initialization plan generation owes for `f`.
pub open spec fn init_matches(f: FieldDesc, init: FieldInit) -> bool {
    &&& init.field_name@ == f.name@
    &&& init.env_name@ == env_name_spec(f)
    &&& if is_option_spec(f.ty) {
        init.plan matches ParsePlan::Optional { inner } && Some(inner@)
            == extract_option_inner_spec(f.ty)
    } else {
        init.plan matches ParsePlan::Required { ty } && ty == f.ty
    }
}

/// The variable generation reports as missing: the binding of the first
/// required field whose variable is unset, if any.
pub open spec fn first_missing(fields: Seq<FieldDesc>, env: EnvMap) -> Option<Seq<char>>
    decreases fields.len(),
{
    if fields.len() == 0 {
        None
    } else if !field_gen_ok(fields[0], env) {
        Some(env_name_spec(fields[0]))
    } else {
        first_missing(fields.skip(1), env)
    }
}

proof fn lemma_first_missing_skip(fields: Seq<FieldDesc>, env: EnvMap, k: int)
    requires
        0 <= k <= fields.len(),
        forall|j: int| 0 <= j < k ==> field_gen_ok(#[trigger] fields[j], env),
    ensures
        first_missing(fields, env) == first_missing(fields.skip(k), env),
    decreases k,
{
    if k > 0 {
        assert(field_gen_ok(fields[0], env));
        assert forall|j: int| 0 <= j < k - 1 implies field_gen_ok(
            #[trigger] fields.skip(1)[j],
            env,
        ) by {
            assert(fields.skip(1)[j] == fields[j + 1]);
        }
        lemma_first_missing_skip(fields.skip(1), env, k - 1);
        assert(fields.skip(1).skip(k - 1) =~= fields.skip(k));
    } else {
        assert(fields.skip(0) =~= fields);
    }
}

/// The plan for one field, or the missing variable that makes generation
/// abort. A required field's variable must be set in `env`; an optional
/// field defers its lookup to run time.
pub fn generate_field_init(f: FieldDesc, env: &EnvMap) -> (r: Result<FieldInit, GenError>)
    requires
        option_shape_ok(f.ty),
    ensures
        (r is Ok) == field_gen_ok(f, *env),
        r matches Ok(init) ==> init_matches(f, init),
        r matches Err(e) ==> e matches GenError::MissingVar { var } && var@ == env_name_spec(f),
{
    let env_name = env_name_for(&f);
    if is_option_type(&f.ty) {
        let inner = match extract_option_inner_type(&f.ty) {
            Some(inner) => inner,
            None => unreached(),
        };
        Ok(FieldInit { field_name: f.name, env_name, plan: ParsePlan::Optional { inner } })
    } else if env.contains_key(&env_name) {
        Ok(FieldInit { field_name: f.name, env_name, plan: ParsePlan::Required { ty: f.ty } })
    } else {
        Err(GenError::MissingVar { var: env_name })
    }
}

/// The generated constructor for a record, or the first missing variable.
/// Succeeds exactly when no required field's variable is unset in `env`, and
/// then yields one matching initialization per field, in order.
pub fn env_new(input: RecordDesc, env: &EnvMap) -> (r: Result<GeneratedImpl, GenError>)
    requires
        forall|i: int| 0 <= i < input.fields@.len() ==> option_shape_ok(
            #[trigger] input.fields@[i].ty,
        ),
    ensures
        (r is Ok) == (first_missing(input.fields@, *env) is None),
        r matches Ok(g) ==> {
            &&& g.name@ == input.name@
            &&& g.inits@.len() == input.fields@.len()
            &&& forall|i: int| 0 <= i < input.fields@.len() ==> init_matches(
                input.fields@[i],
                #[trigger] g.inits@[i],
            )
        },
        r matches Err(e) ==> e matches GenError::MissingVar { var } && Some(var@)
            == first_missing(input.fields@, *env),
{
    let RecordDesc { name, fields } = input;
    let ghost all_fields: Seq<FieldDesc> = fields@;
    proof {
        assert(all_fields == input.fields@);
    }
    let mut fields = fields;
    let mut inits: Vec<FieldInit> = Vec::new();
    proof {
        assert(all_fields.skip(0) =~= all_fields);
    }
    while fields.len() > 0
        invariant
            all_fields == input.fields@,
            inits@.len() + fields@.len() == all_fields.len(),
            fields@ =~= all_fields.skip(inits@.len() as int),
            forall|j: int| 0 <= j < inits@.len() ==> init_matches(
                all_fields[j],
                #[trigger] inits@[j],
            ),
            forall|j: int| 0 <= j < inits@.len() ==> field_gen_ok(#[trigger] all_fields[j], *env),
            forall|i: int| 0 <= i < all_fields.len() ==> option_shape_ok(
                #[trigger] all_fields[i].ty,
            ),
        decreases fields@.len(),
    {
        let ghost k = inits@.len() as int;
        let f = fields.remove(0);
        proof {
            assert(all_fields.skip(k)[0] == all_fields[k]);
            assert(fields@ =~= all_fields.skip(k).skip(1));
            assert(fields@ =~= all_fields.skip(k + 1));
        }
        match generate_field_init(f, env) {
            Ok(init) => {
                inits.push(init);
            },
            Err(e) => {
                proof {
                    lemma_first_missing_skip(all_fields, *env, k);
                    assert(all_fields.skip(k)[0] == all_fields[k]);
                    assert(!field_gen_ok(all_fields[k], *env));
                    assert(first_missing(all_fields.skip(k), *env) == Some(
                        env_name_spec(all_fields[k]),
                    ));
                }
                return Err(e);
            },
        }
    }
    proof {
        lemma_first_missing_skip(all_fields, *env, inits@.len() as int);
        assert(all_fields.skip(inits@.len() as int).len() == 0);
    }
    Ok(GeneratedImpl { name, inits })
}

} // verus!
