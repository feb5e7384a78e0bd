use envar::envmap::EnvMap;
use envar::generate::{env_new, generate_field_init, FieldInit, GenError, ParsePlan};
use envar::model::{
    env_name_for, extract_option_inner_type, find_env_attr, is_option_type, Attr, FieldDesc,
    RecordDesc, TypePath, TypeSeg,
};

fn seg(ident: &str, args: &[&str]) -> TypeSeg {
    TypeSeg { ident: ident.to_string(), args: args.iter().map(|a| a.to_string()).collect() }
}

fn simple_ty(name: &str) -> TypePath {
    TypePath { segments: vec![seg(name, &[])] }
}

fn option_ty(inner: &str) -> TypePath {
    TypePath { segments: vec![seg("Option", &[inner])] }
}

fn plain_field(name: &str, ty: TypePath) -> FieldDesc {
    FieldDesc { name: name.to_string(), attrs: vec![], ty }
}

fn annotated_field(name: &str, var: &str, ty: TypePath) -> FieldDesc {
    FieldDesc {
        name: name.to_string(),
        attrs: vec![Attr { path: "env".to_string(), value: Some(var.to_string()) }],
        ty,
    }
}

#[test]
fn default_name_is_uppercase() {
    let f = plain_field("port", simple_ty("u16"));
    assert_eq!(env_name_for(&f), "PORT");
}

#[test]
fn default_name_inserts_no_separators() {
    let f = plain_field("dbHost", simple_ty("String"));
    assert_eq!(env_name_for(&f), "DBHOST");
}

#[test]
fn annotation_is_taken_verbatim() {
    let f = annotated_field("port", "DB_CONNECTION_PORT", simple_ty("u16"));
    assert_eq!(env_name_for(&f), "DB_CONNECTION_PORT");
}

#[test]
fn lowercase_annotation_stays_lowercase() {
    let f = annotated_field("port", "db_port", simple_ty("u16"));
    assert_eq!(env_name_for(&f), "db_port");
}

#[test]
fn first_env_attribute_wins() {
    let f = FieldDesc {
        name: "port".to_string(),
        attrs: vec![
            Attr { path: "env".to_string(), value: Some("FIRST".to_string()) },
            Attr { path: "env".to_string(), value: Some("SECOND".to_string()) },
        ],
        ty: simple_ty("u16"),
    };
    assert_eq!(env_name_for(&f), "FIRST");
}

#[test]
fn non_string_env_attribute_is_skipped() {
    let attrs = vec![
        Attr { path: "env".to_string(), value: None },
        Attr { path: "env".to_string(), value: Some("REAL".to_string()) },
    ];
    assert_eq!(find_env_attr(&attrs), Some("REAL".to_string()));
}

#[test]
fn other_attributes_are_ignored() {
    let f = FieldDesc {
        name: "port".to_string(),
        attrs: vec![Attr { path: "serde".to_string(), value: Some("x".to_string()) }],
        ty: simple_ty("u16"),
    };
    assert_eq!(env_name_for(&f), "PORT");
}

#[test]
fn option_wrapper_is_detected() {
    assert!(is_option_type(&option_ty("bool")));
    assert!(!is_option_type(&simple_ty("u16")));
    assert!(!is_option_type(&TypePath { segments: vec![] }));
    // The outer (last) type name decides, not an earlier segment.
    let odd = TypePath { segments: vec![seg("Option", &[]), seg("Other", &[])] };
    assert!(!is_option_type(&odd));
}

#[test]
fn option_inner_type_is_extracted() {
    assert_eq!(extract_option_inner_type(&option_ty("bool")), Some("bool".to_string()));
    assert_eq!(extract_option_inner_type(&simple_ty("u16")), None);
}

#[test]
fn qualified_option_path_is_optional() {
    // `std::option::Option<u16>`: the outer type name makes the field
    // optional, and the inner type comes from the same segment.
    let ty = TypePath { segments: vec![seg("std", &[]), seg("option", &[]), seg("Option", &["u16"])] };
    assert!(is_option_type(&ty));
    assert_eq!(extract_option_inner_type(&ty), Some("u16".to_string()));
}

#[test]
fn env_map_lookup_and_shadowing() {
    let mut env = EnvMap::empty();
    assert_eq!(env.get(&"PORT".to_string()), None);
    env.set("PORT".to_string(), "80".to_string());
    assert_eq!(env.get(&"PORT".to_string()), Some("80".to_string()));
    env.set("PORT".to_string(), "8080".to_string());
    assert_eq!(env.get(&"PORT".to_string()), Some("8080".to_string()));
    assert!(env.contains_key(&"PORT".to_string()));
    assert!(!env.contains_key(&"HOST".to_string()));
}

#[test]
fn required_field_with_variable_set_generates() {
    let f = annotated_field("port", "DB_CONNECTION_PORT", simple_ty("u16"));
    let mut env = EnvMap::empty();
    env.set("DB_CONNECTION_PORT".to_string(), "5432".to_string());
    let init = generate_field_init(f, &env).unwrap();
    assert_eq!(
        init,
        FieldInit {
            field_name: "port".to_string(),
            env_name: "DB_CONNECTION_PORT".to_string(),
            plan: ParsePlan::Required { ty: simple_ty("u16") },
        }
    );
}

#[test]
fn missing_required_variable_aborts_generation() {
    let record = RecordDesc {
        name: "Config".to_string(),
        fields: vec![annotated_field("port", "DB_CONNECTION_PORT", simple_ty("u16"))],
    };
    let env = EnvMap::empty();
    let err = env_new(record, &env).unwrap_err();
    assert_eq!(err, GenError::MissingVar { var: "DB_CONNECTION_PORT".to_string() });
}

#[test]
fn optional_field_generates_without_variable() {
    let record = RecordDesc {
        name: "Config".to_string(),
        fields: vec![plain_field("debug", option_ty("bool"))],
    };
    let env = EnvMap::empty();
    let generated = env_new(record, &env).unwrap();
    assert_eq!(generated.name, "Config");
    assert_eq!(generated.inits.len(), 1);
    assert_eq!(
        generated.inits[0],
        FieldInit {
            field_name: "debug".to_string(),
            env_name: "DEBUG".to_string(),
            plan: ParsePlan::Optional { inner: "bool".to_string() },
        }
    );
}

#[test]
fn three_field_record_generates_in_order() {
    let record = RecordDesc {
        name: "Config".to_string(),
        fields: vec![
            annotated_field("port", "DB_CONNECTION_PORT", simple_ty("u16")),
            plain_field("host", simple_ty("String")),
            plain_field("debug", option_ty("bool")),
        ],
    };
    let mut env = EnvMap::empty();
    env.set("DB_CONNECTION_PORT".to_string(), "5432".to_string());
    env.set("HOST".to_string(), "localhost".to_string());
    let generated = env_new(record, &env).unwrap();
    assert_eq!(generated.name, "Config");
    assert_eq!(generated.inits.len(), 3);
    assert_eq!(generated.inits[0].env_name, "DB_CONNECTION_PORT");
    assert_eq!(generated.inits[1].env_name, "HOST");
    assert_eq!(generated.inits[1].field_name, "host");
    assert_eq!(generated.inits[2].env_name, "DEBUG");
    assert!(matches!(generated.inits[2].plan, ParsePlan::Optional { .. }));
}

#[test]
fn first_missing_variable_is_reported() {
    let record = RecordDesc {
        name: "Config".to_string(),
        fields: vec![
            annotated_field("port", "DB_CONNECTION_PORT", simple_ty("u16")),
            plain_field("host", simple_ty("String")),
        ],
    };
    let env = EnvMap::empty();
    let err = env_new(record, &env).unwrap_err();
    assert_eq!(err, GenError::MissingVar { var: "DB_CONNECTION_PORT".to_string() });

    let record = RecordDesc {
        name: "Config".to_string(),
        fields: vec![
            annotated_field("port", "DB_CONNECTION_PORT", simple_ty("u16")),
            plain_field("host", simple_ty("String")),
        ],
    };
    let mut env = EnvMap::empty();
    env.set("DB_CONNECTION_PORT".to_string(), "5432".to_string());
    let err = env_new(record, &env).unwrap_err();
    assert_eq!(err, GenError::MissingVar { var: "HOST".to_string() });
}
