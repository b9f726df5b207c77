use core::any::TypeId;

use pgx_sql_entity_graph::pgx_sql::Sought;
use pgx_sql_entity_graph::{
    AggregateTypeEntity, ControlFile, EntityKind, ExtensionSqlEntity, FailureCause, FinalizeModify,
    ParallelOption, PgAggregateEntity, PgExternArgumentEntity, PgExternEntity, PgExternReturnEntity,
    PgTriggerEntity, PgxSql, PostgresEnumEntity, PostgresHashEntity, PostgresOrdEntity,
    PostgresTypeEntity, RenderError, RustSqlMapping, SchemaEntity, SqlGraphEntity,
    ToSqlConfigEntity, TriggerEvent, TriggerTiming, UsedTypeEntity,
};

struct Mood;
struct Point;
struct Json;

const LONG_NAME: &str = "a234567890123456789012345678901234567890123456789012345678901234";
const LONGEST_SHORT_NAME: &str = "a23456789012345678901234567890123456789012345678901234567890123";

fn mapping<T: 'static>(rust: &str, sql: &str) -> RustSqlMapping {
    RustSqlMapping { rust: rust.to_string(), sql: sql.to_string(), id: TypeId::of::<T>() }
}

fn used<T: 'static>(full_path: &'static str, sql: Option<&'static str>) -> UsedTypeEntity {
    UsedTypeEntity { ty_source: full_path, ty_id: TypeId::of::<T>(), full_path, sql }
}

fn mood_in(module: &'static str, file: &'static str, line: u32) -> PostgresEnumEntity {
    PostgresEnumEntity {
        name: "Mood",
        file,
        line,
        full_path: "demo::Mood",
        source_module_path: module,
        mappings: vec![mapping::<Mood>("demo::Mood", "Mood")],
        variants: vec!["Sad"],
        to_sql_config: ToSqlConfigEntity::default(),
    }
}

fn schema(module: &'static str, name: &'static str) -> SchemaEntity {
    SchemaEntity { source_module_path: module, name, file: "src/schema.rs", line: 1, to_sql_config: ToSqlConfigEntity::default() }
}

fn root() -> ControlFile {
    ControlFile {
        comment: "demo".to_string(),
        default_version: "1.0".to_string(),
        module_pathname: None,
        relocatable: false,
        superuser: true,
        schema: None,
        to_sql_config: ToSqlConfigEntity::default(),
    }
}

fn function(name: &'static str, file: &'static str, line: u32) -> PgExternEntity {
    PgExternEntity {
        name,
        unaliased_name: name,
        source_module_path: "demo",
        full_path: name,
        file,
        line,
        fn_args: vec![],
        fn_return: PgExternReturnEntity::Void,
        to_sql_config: ToSqlConfigEntity::default(),
    }
}

fn json_type() -> PostgresTypeEntity {
    PostgresTypeEntity {
        name: "Json",
        file: "src/json.rs",
        line: 3,
        full_path: "demo::Json",
        source_module_path: "demo",
        mappings: vec![mapping::<Json>("demo::Json", "Json")],
        in_fn: "json_in",
        in_fn_module_path: "demo".to_string(),
        out_fn: "json_out",
        out_fn_module_path: "demo".to_string(),
        to_sql_config: ToSqlConfigEntity::default(),
    }
}

fn aggregate() -> PgAggregateEntity {
    PgAggregateEntity {
        full_path: "demo::Average",
        source_module_path: "demo",
        file: "src/avg.rs",
        line: 12,
        name: "average",
        args: vec![
            AggregateTypeEntity { used_ty: used::<i32>("i32", Some("integer")), name: Some("value") },
            AggregateTypeEntity { used_ty: used::<Mood>("demo::Mood", Some("Mood")), name: None },
        ],
        stype: used::<Point>("demo::Point", Some("Point")),
        sfunc: "average_state",
        finalfunc: Some("average_final"),
        finalfunc_modify: Some(FinalizeModify::ReadOnly),
        initial_condition: Some("0"),
        parallel: Some(ParallelOption::Safe),
        to_sql_config: ToSqlConfigEntity::default(),
    }
}

fn trigger() -> PgTriggerEntity {
    PgTriggerEntity {
        name: "audit",
        function_name: "audit_row",
        relation: "accounts",
        timing: TriggerTiming::Before,
        event: TriggerEvent::Update,
        file: "src/audit.rs",
        line: 5,
        full_path: "demo::audit_row",
        source_module_path: "demo",
        to_sql_config: ToSqlConfigEntity::default(),
    }
}

fn accounts() -> ExtensionSqlEntity {
    ExtensionSqlEntity {
        source_module_path: "demo",
        full_path: "demo::accounts",
        sql: "CREATE TABLE accounts (id int);",
        file: "src/accounts.rs",
        line: 1,
        name: "accounts",
        to_sql_config: ToSqlConfigEntity::default(),
    }
}

#[test]
fn empty_collection_gives_an_empty_script() {
    let graph = PgxSql::build(vec![]);
    assert_eq!(graph.len(), 0);
    assert_eq!(graph.to_sql().unwrap(), "");
    assert!(graph.entity(0).is_none());
    assert!(graph.neighbors(0).is_none());
    assert_eq!(graph.emission_order(), &Vec::<usize>::new());
    assert_eq!(graph.schema_prefix_for(0), "");
    assert_eq!(graph.find(EntityKind::Enum, "demo::Mood"), None);
}

#[test]
fn nodes_keep_the_order_of_the_descriptors() {
    let descriptors = vec![
        SqlGraphEntity::Enum(mood_in("demo", "src/lib.rs", 10)),
        SqlGraphEntity::BuiltinType("i32".to_string()),
        SqlGraphEntity::Schema(schema("demo", "shapes")),
    ];
    let graph = PgxSql::build(descriptors.clone());
    assert_eq!(graph.len(), 3);
    for handle in 0..3 {
        assert_eq!(graph.entity(handle), Some(&descriptors[handle]));
    }
    assert_eq!(graph.entity(3), None);
}

#[test]
fn edges_join_what_refers_to_each_other() {
    let mut uses_mood = function("describe", "src/f.rs", 1);
    uses_mood.fn_args = vec![
        PgExternArgumentEntity { pattern: "mood", used_ty: used::<Mood>("demo::Mood", Some("Mood")) },
        PgExternArgumentEntity { pattern: "count", used_ty: used::<i32>("i32", Some("integer")) },
    ];
    let graph = PgxSql::build(vec![
        SqlGraphEntity::Enum(mood_in("demo", "src/lib.rs", 10)),
        SqlGraphEntity::Function(uses_mood),
        SqlGraphEntity::BuiltinType("i32".to_string()),
        SqlGraphEntity::BuiltinType("i64".to_string()),
        SqlGraphEntity::Schema(schema("demo", "shapes")),
        SqlGraphEntity::Schema(schema("other", "elsewhere")),
        SqlGraphEntity::Trigger(trigger()),
        SqlGraphEntity::CustomSql(accounts()),
    ]);
    assert_eq!(graph.neighbors(0), Some(&vec![1, 4]));
    assert_eq!(graph.neighbors(1), Some(&vec![0, 2, 4]));
    assert_eq!(graph.neighbors(2), Some(&vec![1]));
    assert_eq!(graph.neighbors(3), Some(&vec![]));
    assert_eq!(graph.neighbors(4), Some(&vec![0, 1, 6, 7]));
    assert_eq!(graph.neighbors(5), Some(&vec![]));
    assert_eq!(graph.neighbors(6), Some(&vec![4, 7]));
    assert_eq!(graph.neighbors(7), Some(&vec![4, 6]));
    assert_eq!(graph.neighbors(8), None);
}

#[test]
fn operator_classes_are_joined_to_the_type_they_order() {
    let ord = PostgresOrdEntity {
        name: "Mood",
        file: "src/lib.rs",
        line: 11,
        full_path: "demo::Mood",
        source_module_path: "demo",
        id: TypeId::of::<Mood>(),
        to_sql_config: ToSqlConfigEntity::default(),
    };
    let hash = PostgresHashEntity {
        name: "Point",
        file: "src/lib.rs",
        line: 12,
        full_path: "demo::Point",
        source_module_path: "demo",
        id: TypeId::of::<Point>(),
        to_sql_config: ToSqlConfigEntity::default(),
    };
    let graph = PgxSql::build(vec![
        SqlGraphEntity::Ord(ord),
        SqlGraphEntity::Enum(mood_in("demo", "src/lib.rs", 10)),
        SqlGraphEntity::Hash(hash),
    ]);
    assert_eq!(graph.neighbors(0), Some(&vec![1]));
    assert_eq!(graph.neighbors(1), Some(&vec![0]));
    assert_eq!(graph.neighbors(2), Some(&vec![]));
}

#[test]
fn index_tables_list_handles_by_kind() {
    let graph = PgxSql::build(vec![
        SqlGraphEntity::Enum(mood_in("demo", "src/lib.rs", 10)),
        SqlGraphEntity::Schema(schema("demo", "shapes")),
        SqlGraphEntity::Function(function("demo::first", "src/f.rs", 1)),
        SqlGraphEntity::Function(function("demo::second", "src/f.rs", 2)),
    ]);
    assert_eq!(graph.table(EntityKind::Function), &vec![2, 3]);
    assert_eq!(graph.table(EntityKind::Enum), &vec![0]);
    assert_eq!(graph.table(EntityKind::Schema), &vec![1]);
    assert_eq!(graph.table(EntityKind::Type), &Vec::<usize>::new());
    assert_eq!(graph.find(EntityKind::Function, "demo::second"), Some(3));
    assert_eq!(graph.find(EntityKind::Function, "demo::first"), Some(2));
    assert_eq!(graph.find(EntityKind::Function, "demo::third"), None);
    assert_eq!(graph.find(EntityKind::Enum, "demo::first"), None);
    assert_eq!(graph.find(EntityKind::Schema, "demo"), Some(1));
}

#[test]
fn implicit_schemas_are_never_written() {
    let graph = PgxSql::build(vec![
        SqlGraphEntity::Schema(schema("demo", "public")),
        SqlGraphEntity::Enum(mood_in("demo", "src/lib.rs", 10)),
        SqlGraphEntity::Schema(schema("catalog", "pg_catalog")),
        SqlGraphEntity::Enum(mood_in("catalog", "src/lib.rs", 20)),
    ]);
    assert_eq!(graph.schema_prefix_for(1), "");
    assert_eq!(graph.schema_prefix_for(3), "");
    assert_eq!(graph.entity(0).unwrap().to_sql(&graph).unwrap(), "");
    assert_eq!(graph.entity(2).unwrap().to_sql(&graph).unwrap(), "");
    let script = graph.to_sql().unwrap();
    assert!(!script.contains("CREATE SCHEMA"));
    assert!(!script.contains("public."));
    assert!(!script.contains("pg_catalog."));
    assert!(script.contains("CREATE TYPE Mood AS ENUM"));
}

#[test]
fn other_schemas_qualify_their_members() {
    let graph = PgxSql::build(vec![
        SqlGraphEntity::Schema(schema("demo", "shapes")),
        SqlGraphEntity::Enum(mood_in("demo", "src/lib.rs", 10)),
        SqlGraphEntity::Enum(mood_in("nowhere", "src/lib.rs", 20)),
    ]);
    assert_eq!(graph.schema_prefix_for(1), "shapes.");
    assert_eq!(graph.schema_prefix_for(2), "");
    assert_eq!(graph.schema_prefix_for(0), "");
    assert_eq!(graph.schema_prefix_for(9), "");
    assert_eq!(graph.prefix_of(EntityKind::Enum, "demo::Mood"), "shapes.");
    assert_eq!(graph.prefix_of(EntityKind::Enum, "demo::Missing"), "");
    assert_eq!(
        graph.entity(0).unwrap().to_sql(&graph).unwrap(),
        "-- src/schema.rs:1\n-- demo\nCREATE SCHEMA IF NOT EXISTS shapes;"
    );
}

#[test]
fn first_schema_among_the_neighbors_is_taken() {
    let graph = PgxSql::build(vec![
        SqlGraphEntity::Enum(mood_in("demo", "src/lib.rs", 10)),
        SqlGraphEntity::Schema(schema("demo", "first")),
        SqlGraphEntity::Schema(schema("demo", "second")),
    ]);
    assert_eq!(graph.schema_prefix_for(0), "first.");
}

#[test]
fn emission_follows_file_then_line_then_arrival() {
    let graph = PgxSql::build(vec![
        SqlGraphEntity::Function(function("f0", "src/b.rs", 5)),
        SqlGraphEntity::Function(function("f1", "src/a.rs", 9)),
        SqlGraphEntity::BuiltinType("i32".to_string()),
        SqlGraphEntity::Function(function("f3", "src/b.rs", 2)),
        SqlGraphEntity::Function(function("f4", "src/a.rs", 9)),
        SqlGraphEntity::ExtensionRoot(root()),
        SqlGraphEntity::Function(function("f6", "src/a", 100)),
        SqlGraphEntity::Function(function("f7", "src/a.rs", 1)),
    ]);
    assert_eq!(graph.emission_order(), &vec![5, 2, 6, 7, 1, 4, 3, 0]);
    let script = graph.to_sql().unwrap();
    assert!(script.starts_with("-- root\n"));
    let places: Vec<usize> = ["\"f6\"", "\"f7\"", "\"f1\"", "\"f4\"", "\"f3\"", "\"f0\""]
        .iter()
        .map(|name| script.find(name).unwrap())
        .collect();
    assert!(places.windows(2).all(|pair| pair[0] < pair[1]));
}

#[test]
fn fragments_are_parted_by_blank_lines() {
    let graph = PgxSql::build(vec![
        SqlGraphEntity::CustomSql(accounts()),
        SqlGraphEntity::BuiltinType("i32".to_string()),
        SqlGraphEntity::Function(function("ping", "src/ping.rs", 1)),
    ]);
    assert_eq!(
        graph.to_sql().unwrap(),
        "-- src/accounts.rs:1\n-- accounts\nCREATE TABLE accounts (id int);\n\n\
         -- src/ping.rs:1\n-- ping\nCREATE FUNCTION \"ping\"() RETURNS void\n\
         LANGUAGE c /* Rust */\nAS 'MODULE_PATHNAME', 'ping_wrapper';"
    );
}

#[test]
fn building_twice_gives_the_same_graph_and_script() {
    let descriptors = vec![
        SqlGraphEntity::Function(function("demo::json_in", "src/json.rs", 20)),
        SqlGraphEntity::Type(json_type()),
        SqlGraphEntity::Schema(schema("demo", "shapes")),
        SqlGraphEntity::Enum(mood_in("demo", "src/lib.rs", 10)),
        SqlGraphEntity::ExtensionRoot(root()),
    ];
    let first = PgxSql::build(descriptors.clone());
    let second = PgxSql::build(descriptors);
    assert_eq!(first.len(), second.len());
    for handle in 0..first.len() {
        assert_eq!(first.entity(handle), second.entity(handle));
        assert_eq!(first.neighbors(handle), second.neighbors(handle));
    }
    assert_eq!(first.emission_order(), second.emission_order());
    assert_eq!(first.to_sql().unwrap().into_bytes(), second.to_sql().unwrap().into_bytes());
}

#[test]
fn function_arguments_take_the_schema_of_their_type() {
    let mut describe = function("describe", "src/f.rs", 1);
    describe.source_module_path = "plain";
    describe.unaliased_name = "describe_impl";
    describe.fn_args = vec![
        PgExternArgumentEntity { pattern: "mood", used_ty: used::<Mood>("demo::Mood", Some("Mood")) },
        PgExternArgumentEntity { pattern: "count", used_ty: used::<i32>("i32", Some("integer")) },
    ];
    describe.fn_return = PgExternReturnEntity::SetOf { ty: used::<Mood>("demo::Mood", Some("Mood")) };
    let graph = PgxSql::build(vec![
        SqlGraphEntity::Function(describe),
        SqlGraphEntity::Enum(mood_in("demo", "src/lib.rs", 10)),
        SqlGraphEntity::Schema(schema("demo", "shapes")),
        SqlGraphEntity::BuiltinType("i32".to_string()),
    ]);
    assert_eq!(
        graph.entity(0).unwrap().to_sql(&graph).unwrap(),
        "-- src/f.rs:1\n-- describe\nCREATE FUNCTION \"describe\"(\n\
         \t\"mood\" shapes.Mood /* demo::Mood */,\n\
         \t\"count\" integer /* i32 */\n\
         ) RETURNS SETOF shapes.Mood\n\
         LANGUAGE c /* Rust */\nAS 'MODULE_PATHNAME', 'describe_impl_wrapper';"
    );
}

#[test]
fn function_in_a_schema_is_qualified() {
    let mut fire = function("demo::fire", "src/f.rs", 1);
    fire.name = "fire";
    fire.unaliased_name = "fire";
    fire.fn_return = PgExternReturnEntity::Trigger;
    let graph = PgxSql::build(vec![
        SqlGraphEntity::Schema(schema("demo", "shapes")),
        SqlGraphEntity::Function(fire),
    ]);
    assert_eq!(
        graph.entity(1).unwrap().to_sql(&graph).unwrap(),
        "-- src/f.rs:1\n-- demo::fire\nCREATE FUNCTION shapes.\"fire\"() RETURNS trigger\n\
         LANGUAGE c /* Rust */\nAS 'MODULE_PATHNAME', 'fire_wrapper';"
    );
}

#[test]
fn function_without_a_known_argument_type_fails() {
    let mut broken = function("broken", "src/f.rs", 4);
    broken.fn_args = vec![
        PgExternArgumentEntity { pattern: "a", used_ty: used::<i32>("i32", Some("integer")) },
        PgExternArgumentEntity { pattern: "b", used_ty: used::<Point>("demo::Point", None) },
    ];
    broken.fn_return = PgExternReturnEntity::Type { ty: used::<Mood>("demo::Mood", None) };
    let graph = PgxSql::build(vec![SqlGraphEntity::Function(broken)]);
    let expected = RenderError::RenderingFailure {
        identity: "broken",
        kind: EntityKind::Function,
        file: "src/f.rs",
        line: 4,
        cause: FailureCause::UnmappedArgument,
    };
    assert_eq!(graph.entity(0).unwrap().to_sql(&graph), Err(expected));
    assert_eq!(graph.to_sql(), Err(expected));
}

#[test]
fn function_without_a_known_return_type_fails() {
    let mut broken = function("broken", "src/f.rs", 4);
    broken.fn_return = PgExternReturnEntity::Type { ty: used::<Mood>("demo::Mood", None) };
    let graph = PgxSql::build(vec![
        SqlGraphEntity::Function(function("fine", "src/a.rs", 1)),
        SqlGraphEntity::Function(broken),
    ]);
    assert_eq!(
        graph.to_sql(),
        Err(RenderError::RenderingFailure {
            identity: "broken",
            kind: EntityKind::Function,
            file: "src/f.rs",
            line: 4,
            cause: FailureCause::UnmappedReturn,
        })
    );
}

#[test]
fn first_failure_in_emission_order_is_reported() {
    let mut late = function("late", "src/z.rs", 1);
    late.fn_return = PgExternReturnEntity::SetOf { ty: used::<Mood>("demo::Mood", None) };
    let mut early = function("early", "src/a.rs", 1);
    early.name = LONG_NAME;
    let graph = PgxSql::build(vec![SqlGraphEntity::Function(late), SqlGraphEntity::Function(early)]);
    assert_eq!(
        graph.to_sql(),
        Err(RenderError::IdentifierTooLong {
            name: LONG_NAME,
            length: 64,
            identity: "early",
            kind: EntityKind::Function,
            file: "src/a.rs",
            line: 1,
        })
    );
}

#[test]
fn name_of_64_characters_is_refused_for_every_named_kind() {
    let mut long_enum = mood_in("demo", "src/lib.rs", 10);
    long_enum.name = LONG_NAME;
    let mut long_type = json_type();
    long_type.name = LONG_NAME;
    let mut long_aggregate = aggregate();
    long_aggregate.name = LONG_NAME;
    let mut long_trigger = trigger();
    long_trigger.name = LONG_NAME;
    let mut long_function = function("f", "src/f.rs", 1);
    long_function.name = LONG_NAME;
    let long_schema = schema("demo", LONG_NAME);
    let long_ord = PostgresOrdEntity {
        name: LONG_NAME,
        file: "src/lib.rs",
        line: 11,
        full_path: "demo::Mood",
        source_module_path: "demo",
        id: TypeId::of::<Mood>(),
        to_sql_config: ToSqlConfigEntity::default(),
    };
    let long_hash = PostgresHashEntity {
        name: LONG_NAME,
        file: "src/lib.rs",
        line: 12,
        full_path: "demo::Mood",
        source_module_path: "demo",
        id: TypeId::of::<Mood>(),
        to_sql_config: ToSqlConfigEntity::default(),
    };
    let cases = vec![
        (SqlGraphEntity::Enum(long_enum), EntityKind::Enum),
        (SqlGraphEntity::Type(long_type), EntityKind::Type),
        (SqlGraphEntity::Aggregate(long_aggregate), EntityKind::Aggregate),
        (SqlGraphEntity::Trigger(long_trigger), EntityKind::Trigger),
        (SqlGraphEntity::Function(long_function), EntityKind::Function),
        (SqlGraphEntity::Schema(long_schema), EntityKind::Schema),
        (SqlGraphEntity::Ord(long_ord), EntityKind::Ord),
        (SqlGraphEntity::Hash(long_hash), EntityKind::Hash),
    ];
    for (entity, expected_kind) in cases {
        let graph = PgxSql::build(vec![entity]);
        match graph.to_sql() {
            Err(RenderError::IdentifierTooLong { name, length, kind, .. }) => {
                assert_eq!(name, LONG_NAME);
                assert_eq!(length, 64);
                assert_eq!(kind, expected_kind);
            }
            other => panic!("expected a refused name, got {:?}", other),
        }
    }
}

#[test]
fn name_of_63_characters_is_taken() {
    let mut entity = mood_in("demo", "src/lib.rs", 10);
    entity.name = LONGEST_SHORT_NAME;
    let graph = PgxSql::build(vec![SqlGraphEntity::Enum(entity)]);
    let script = graph.to_sql().unwrap();
    assert!(script.contains(&format!("CREATE TYPE {} AS ENUM", LONGEST_SHORT_NAME)));
}

#[test]
fn long_name_of_an_absorbed_function_is_still_refused() {
    let mut converter = function("demo::json_in", "src/json.rs", 20);
    converter.name = LONG_NAME;
    let graph = PgxSql::build(vec![SqlGraphEntity::Type(json_type()), SqlGraphEntity::Function(converter)]);
    assert!(matches!(
        graph.entity(1).unwrap().to_sql(&graph),
        Err(RenderError::IdentifierTooLong { length: 64, .. })
    ));
    assert!(matches!(graph.to_sql(), Err(RenderError::IdentifierTooLong { length: 64, .. })));
}

#[test]
fn type_without_its_converters_is_still_declared() {
    let graph = PgxSql::build(vec![SqlGraphEntity::Type(json_type())]);
    assert_eq!(
        graph.to_sql().unwrap(),
        "-- src/json.rs:3\n-- demo::Json\nCREATE TYPE Json;\n\n\
         CREATE TYPE Json (\n\tINTERNALLENGTH = variable,\n\tINPUT = json_in,\n\tOUTPUT = json_out,\n\tSTORAGE = extended\n);"
    );
}

#[test]
fn converters_are_matched_by_module_and_name() {
    let ty = json_type();
    assert!(ty.is_input_converter(&function("demo::json_in", "src/json.rs", 20)));
    assert!(ty.is_input_converter(&function("demo::inner::json_in", "src/json.rs", 20)));
    assert!(!ty.is_input_converter(&function("other::json_in", "src/json.rs", 20)));
    assert!(!ty.is_input_converter(&function("demo::json_in2", "src/json.rs", 20)));
    assert!(!ty.is_input_converter(&function("demo::json_out", "src/json.rs", 20)));
    assert!(ty.is_output_converter(&function("demo::json_out", "src/json.rs", 20)));
    assert!(!ty.is_output_converter(&function("demo::json_in", "src/json.rs", 20)));
    assert!(ty.is_converter(&function("demo::json_out", "src/json.rs", 20)));
    assert!(ty.is_converter(&function("demo::json_in", "src/json.rs", 20)));
    assert!(!ty.is_converter(&function("demo::json", "src/json.rs", 20)));
}

#[test]
fn function_with_an_override_is_not_absorbed() {
    let mut converter = function("demo::json_in", "src/json.rs", 20);
    converter.to_sql_config = ToSqlConfigEntity { enabled: true, content: Some("-- json_in by hand") };
    let graph = PgxSql::build(vec![SqlGraphEntity::Type(json_type()), SqlGraphEntity::Function(converter)]);
    assert_eq!(graph.entity(1).unwrap().to_sql(&graph).unwrap(), "-- json_in by hand");
}

#[test]
fn unrelated_function_is_declared_on_its_own() {
    let graph = PgxSql::build(vec![
        SqlGraphEntity::Type(json_type()),
        SqlGraphEntity::Function(function("demo::json_in", "src/json.rs", 20)),
        SqlGraphEntity::Function(function("demo::length", "src/json.rs", 40)),
    ]);
    assert!(graph.entity(1).unwrap().to_sql(&graph).unwrap().is_empty());
    assert!(graph
        .entity(2)
        .unwrap()
        .to_sql(&graph)
        .unwrap()
        .contains("CREATE FUNCTION \"demo::length\"()"));
    let script = graph.to_sql().unwrap();
    assert_eq!(script.matches("CREATE FUNCTION \"demo::json_in\"").count(), 1);
    assert_eq!(script.matches("CREATE FUNCTION \"demo::length\"").count(), 1);
}

#[test]
fn aggregate_is_driven_by_state_function_and_options() {
    let graph = PgxSql::build(vec![
        SqlGraphEntity::Aggregate(aggregate()),
        SqlGraphEntity::Schema(schema("demo", "shapes")),
        SqlGraphEntity::Enum(mood_in("demo", "src/lib.rs", 10)),
    ]);
    assert_eq!(
        graph.entity(0).unwrap().to_sql(&graph).unwrap(),
        "-- src/avg.rs:12\n-- demo::Average\n\
         CREATE AGGREGATE shapes.average (value integer, shapes.Mood)\n(\n\
         \tSFUNC = shapes.\"average_state\",\n\
         \tSTYPE = Point,\n\
         \tFINALFUNC = shapes.\"average_final\",\n\
         \tFINALFUNC_MODIFY = READ_ONLY,\n\
         \tINITCOND = '0',\n\
         \tPARALLEL = SAFE\n);"
    );
}

#[test]
fn aggregate_without_arguments_or_options_is_minimal() {
    let mut plain = aggregate();
    plain.args.clear();
    plain.finalfunc = None;
    plain.finalfunc_modify = None;
    plain.initial_condition = None;
    plain.parallel = None;
    let graph = PgxSql::build(vec![SqlGraphEntity::Aggregate(plain)]);
    assert_eq!(
        graph.to_sql().unwrap(),
        "-- src/avg.rs:12\n-- demo::Average\n\
         CREATE AGGREGATE average (*)\n(\n\
         \tSFUNC = \"average_state\",\n\
         \tSTYPE = Point\n);"
    );
}

#[test]
fn aggregate_options_are_written_by_keyword() {
    assert_eq!(FinalizeModify::ReadOnly.as_sql(), "READ_ONLY");
    assert_eq!(FinalizeModify::Shareable.as_sql(), "SHAREABLE");
    assert_eq!(FinalizeModify::ReadWrite.as_sql(), "READ_WRITE");
    assert_eq!(ParallelOption::Safe.as_sql(), "SAFE");
    assert_eq!(ParallelOption::Restricted.as_sql(), "RESTRICTED");
    assert_eq!(ParallelOption::Unsafe.as_sql(), "UNSAFE");
}

#[test]
fn aggregate_with_conflicting_options_fails() {
    let mut conflicting = aggregate();
    conflicting.finalfunc = None;
    let graph = PgxSql::build(vec![SqlGraphEntity::Aggregate(conflicting)]);
    assert_eq!(
        graph.to_sql(),
        Err(RenderError::RenderingFailure {
            identity: "demo::Average",
            kind: EntityKind::Aggregate,
            file: "src/avg.rs",
            line: 12,
            cause: FailureCause::FinalizeModifyWithoutFinalFunction,
        })
    );
}

#[test]
fn aggregate_without_known_types_fails() {
    let mut stateless = aggregate();
    stateless.stype.sql = None;
    stateless.args[0].used_ty.sql = None;
    let graph = PgxSql::build(vec![SqlGraphEntity::Aggregate(stateless)]);
    assert!(matches!(
        graph.to_sql(),
        Err(RenderError::RenderingFailure { cause: FailureCause::UnmappedState, .. })
    ));
    let mut unmapped = aggregate();
    unmapped.args[1].used_ty.sql = None;
    unmapped.finalfunc = None;
    let graph = PgxSql::build(vec![SqlGraphEntity::Aggregate(unmapped)]);
    assert!(matches!(
        graph.to_sql(),
        Err(RenderError::RenderingFailure { cause: FailureCause::UnmappedArgument, .. })
    ));
}

#[test]
fn trigger_is_bound_to_its_relation() {
    let graph = PgxSql::build(vec![
        SqlGraphEntity::Trigger(trigger()),
        SqlGraphEntity::Schema(schema("demo", "shapes")),
    ]);
    assert_eq!(
        graph.entity(0).unwrap().to_sql(&graph).unwrap(),
        "-- src/audit.rs:5\n-- demo::audit_row\n\
         CREATE TRIGGER audit BEFORE UPDATE ON accounts\n\
         \tFOR EACH ROW EXECUTE FUNCTION shapes.\"audit_row\"();"
    );
}

#[test]
fn trigger_timing_and_event_are_written_by_keyword() {
    assert_eq!(TriggerTiming::Before.as_sql(), "BEFORE");
    assert_eq!(TriggerTiming::After.as_sql(), "AFTER");
    assert_eq!(TriggerTiming::InsteadOf.as_sql(), "INSTEAD OF");
    assert_eq!(TriggerEvent::Insert.as_sql(), "INSERT");
    assert_eq!(TriggerEvent::Update.as_sql(), "UPDATE");
    assert_eq!(TriggerEvent::Delete.as_sql(), "DELETE");
}

#[test]
fn custom_sql_passes_through() {
    let graph = PgxSql::build(vec![SqlGraphEntity::CustomSql(accounts())]);
    assert_eq!(
        graph.to_sql().unwrap(),
        "-- src/accounts.rs:1\n-- accounts\nCREATE TABLE accounts (id int);"
    );
}

#[test]
fn builtin_type_never_renders() {
    let graph = PgxSql::build(vec![SqlGraphEntity::BuiltinType("i32".to_string())]);
    assert_eq!(graph.entity(0).unwrap().to_sql(&graph).unwrap(), "");
    assert_eq!(graph.to_sql().unwrap(), "");
}

#[test]
fn repeated_descriptor_is_rendered_once() {
    let graph = PgxSql::build(vec![
        SqlGraphEntity::Enum(mood_in("demo", "src/lib.rs", 10)),
        SqlGraphEntity::Function(function("demo::Mood", "src/lib.rs", 11)),
        SqlGraphEntity::Enum(mood_in("demo", "src/lib.rs", 10)),
    ]);
    assert!(!graph.repeats_earlier(0));
    assert!(!graph.repeats_earlier(1));
    assert!(graph.repeats_earlier(2));
    assert!(!graph.repeats_earlier(3));
    assert_eq!(graph.render(2).unwrap(), "");
    assert_eq!(graph.render(3).unwrap(), "");
    assert_eq!(
        graph.render(0).unwrap(),
        "-- src/lib.rs:10\n-- demo::Mood\nCREATE TYPE Mood AS ENUM (\n\t'Sad'\n);"
    );
    let script = graph.to_sql().unwrap();
    assert_eq!(script.matches("CREATE TYPE Mood AS ENUM").count(), 1);
    assert_eq!(script.matches("CREATE FUNCTION").count(), 1);
}

#[test]
fn repeated_descriptor_with_an_override_keeps_its_text() {
    let mut second = mood_in("demo", "src/lib.rs", 10);
    second.to_sql_config = ToSqlConfigEntity { enabled: true, content: Some("-- again") };
    let mut third = mood_in("demo", "src/lib.rs", 10);
    third.name = LONG_NAME;
    let graph = PgxSql::build(vec![
        SqlGraphEntity::Enum(mood_in("demo", "src/lib.rs", 10)),
        SqlGraphEntity::Enum(second),
        SqlGraphEntity::Enum(third),
    ]);
    assert_eq!(graph.render(1).unwrap(), "-- again");
    assert!(matches!(graph.render(2), Err(RenderError::IdentifierTooLong { .. })));
}

#[test]
fn walk_gives_the_first_neighbor_that_is_sought() {
    let ty = json_type();
    let into = function("demo::json_in", "src/json.rs", 20);
    let graph = PgxSql::build(vec![
        SqlGraphEntity::Function(function("demo::json_out", "src/json.rs", 30)),
        SqlGraphEntity::Type(json_type()),
        SqlGraphEntity::Function(function("demo::json_in", "src/json.rs", 20)),
        SqlGraphEntity::Schema(schema("demo", "shapes")),
    ]);
    assert_eq!(graph.first_neighbor(1, &Sought::InputOf(&ty)), Some(2));
    assert_eq!(graph.first_neighbor(1, &Sought::OutputOf(&ty)), Some(0));
    assert_eq!(graph.first_neighbor(1, &Sought::Schema), Some(3));
    assert_eq!(graph.first_neighbor(2, &Sought::ConvertedBy(&into)), Some(1));
    assert_eq!(graph.first_neighbor(3, &Sought::Schema), None);
    assert_eq!(graph.first_neighbor(3, &Sought::ConvertedBy(&into)), Some(1));
    assert_eq!(graph.first_neighbor(9, &Sought::Schema), None);
    let needed = used::<Json>("demo::Json", Some("Json"));
    assert_eq!(graph.first_neighbor(3, &Sought::Declaring(&needed)), Some(1));
    assert_eq!(graph.used_type_prefix(Some(3), &needed), "shapes.");
    assert_eq!(graph.used_type_prefix(None, &needed), "");
    assert!(into.is_absorbed(&graph));
    assert!(!function("demo::length", "src/json.rs", 40).is_absorbed(&graph));
}

#[test]
fn relations_are_told_between_entities() {
    let mood = SqlGraphEntity::Enum(mood_in("demo", "src/lib.rs", 10));
    let shapes = SqlGraphEntity::Schema(schema("demo", "shapes"));
    let builtin = SqlGraphEntity::BuiltinType("i32".to_string());
    assert!(mood.refers_to(&shapes));
    assert!(!shapes.refers_to(&mood));
    assert!(mood.is_related_to(&shapes));
    assert!(shapes.is_related_to(&mood));
    assert!(!mood.is_related_to(&builtin));
    assert_eq!(mood.module(), Some("demo"));
    assert_eq!(shapes.module(), None);
    assert!(mood.declares_type(&used::<Mood>("elsewhere::Mood", None)));
    assert!(!mood.declares_type(&used::<Point>("demo::Mood", None)));
    assert!(builtin.declares_type(&used::<Point>("i32", None)));
    assert!(!builtin.declares_type(&used::<i32>("i64", None)));
    assert!(SqlGraphEntity::Aggregate(aggregate()).refers_to(&mood));
    assert!(aggregate().uses_declared_type(&mood));
    assert!(!aggregate().uses_declared_type(&shapes));
    assert!(SqlGraphEntity::Trigger(trigger()).refers_to(&SqlGraphEntity::CustomSql(accounts())));
    assert!(!SqlGraphEntity::CustomSql(accounts()).refers_to(&SqlGraphEntity::Trigger(trigger())));
}

#[test]
fn earlier_entity_is_told_by_root_file_and_line() {
    let a5 = SqlGraphEntity::Function(function("a5", "src/a.rs", 5));
    let a9 = SqlGraphEntity::Function(function("a9", "src/a.rs", 9));
    let b1 = SqlGraphEntity::Function(function("b1", "src/b.rs", 1));
    let builtin = SqlGraphEntity::BuiltinType("i32".to_string());
    let root = SqlGraphEntity::ExtensionRoot(root());
    assert!(a5.precedes(&a9));
    assert!(!a9.precedes(&a5));
    assert!(!a5.precedes(&a5));
    assert!(a9.precedes(&b1));
    assert!(!b1.precedes(&a9));
    assert!(builtin.precedes(&a5));
    assert!(!a5.precedes(&builtin));
    assert!(root.precedes(&builtin));
    assert!(!builtin.precedes(&root));
    assert!(root.precedes(&a5));
    assert!(!root.precedes(&root));
}

#[test]
fn naming_is_checked_for_named_kinds_only() {
    let mut long = mood_in("demo", "src/lib.rs", 10);
    long.name = LONG_NAME;
    assert_eq!(
        SqlGraphEntity::Enum(long).check_naming(),
        Err(RenderError::IdentifierTooLong {
            name: LONG_NAME,
            length: 64,
            identity: "demo::Mood",
            kind: EntityKind::Enum,
            file: "src/lib.rs",
            line: 10,
        })
    );
    assert_eq!(SqlGraphEntity::Enum(mood_in("demo", "src/lib.rs", 10)).check_naming(), Ok(()));
    let mut sql = accounts();
    sql.name = LONG_NAME;
    assert_eq!(SqlGraphEntity::CustomSql(sql).check_naming(), Ok(()));
    assert_eq!(
        SqlGraphEntity::BuiltinType(LONG_NAME.to_string()).check_naming(),
        Ok(())
    );
}
