//! General properties of the binding policy, the generation-time check, and
//! the run-time behaviour of the generated constructor.

use crate::envmap::EnvMap;
use crate::generate::{field_gen_ok, first_missing};
use crate::model::{env_name_spec, find_env_attr_spec, FieldDesc};
use crate::names::upper_of;
use crate::parse::prim_parse_spec;
use crate::runtime::{eval_binding_spec, Binding, FieldValueModel, RunErrorModel};
use vstd::prelude::*;

verus! {

/// A field with no `env` annotation is bound to its own identifier rendered
/// in uppercase, with no separators inserted.
pub proof fn lemma_default_env_name(f: FieldDesc)
    requires
        find_env_attr_spec(f.attrs@) is None,
    ensures
        env_name_spec(f) == upper_of(f.name@),
{
}

/// A field with an explicit `env` annotation of value `v` is bound to
/// exactly `v`.
pub proof fn lemma_annotated_env_name(f: FieldDesc, v: Seq<char>)
    requires
        find_env_attr_spec(f.attrs@) == Some(v),
    ensures
        env_name_spec(f) == v,
{
}

/// For an optional binding, absence of the variable yields the empty
/// optional value: construction never aborts on an unset optional field.
pub proof fn lemma_optional_absent_is_empty(b: Binding, env: EnvMap)
    requires
        b.optional,
        env.lookup(b.env_name@) is None,
    ensures
        eval_binding_spec(b, env) == Ok::<FieldValueModel, RunErrorModel>(
            FieldValueModel::OptAbsent,
        ),
{
}

/// For an optional binding, a set but unparsable value still aborts the run,
/// naming the variable: optionality tolerates absence, not parse failure.
pub proof fn lemma_optional_unparsable_aborts(b: Binding, env: EnvMap)
    requires
        b.optional,
        env.lookup(b.env_name@) matches Some(text) && prim_parse_spec(b.ty, text) is None,
    ensures
        eval_binding_spec(b, env) == Err::<FieldValueModel, RunErrorModel>(
            RunErrorModel::Unparsable(b.env_name@),
        ),
{
}

/// Generation succeeds exactly when every field is either optional or has
/// its variable set in the generation-time environment.
pub proof fn lemma_generation_checks_required(fields: Seq<FieldDesc>, env: EnvMap)
    ensures
        (first_missing(fields, env) is None) <==> (forall|i: int|
            0 <= i < fields.len() ==> field_gen_ok(#[trigger] fields[i], env)),
    decreases fields.len(),
{
    if fields.len() > 0 {
        lemma_generation_checks_required(fields.skip(1), env);
        if field_gen_ok(fields[0], env) {
            if first_missing(fields, env) is None {
                assert forall|i: int| 0 <= i < fields.len() implies field_gen_ok(
                    #[trigger] fields[i],
                    env,
                ) by {
                    if i > 0 {
                        assert(fields.skip(1)[i - 1] == fields[i]);
                    }
                }
            } else {
                assert(first_missing(fields.skip(1), env) is Some);
                let j = choose|j: int|
                    0 <= j < fields.skip(1).len() && !field_gen_ok(
                        #[trigger] fields.skip(1)[j],
                        env,
                    );
                assert(fields.skip(1)[j] == fields[j + 1]);
                assert(!field_gen_ok(fields[j + 1], env));
            }
        }
    }
}

} // verus!
