use core::any::TypeId;

use pgx_sql_entity_graph::mapping::register_mapping;
use pgx_sql_entity_graph::text::function_name;
use pgx_sql_entity_graph::{
    ControlFile, EntityKind, ExtensionSqlEntity, PgxSql, PostgresEnumEntity, PostgresHashEntity,
    PostgresOrdEntity, PostgresTypeEntity, RustSqlMapping, SchemaEntity, SqlGraphEntity,
    SqlGraphIdentifier, SqlOverride, ToSqlConfigEntity,
};

struct Mood;
struct Point;
struct Other;

fn mood() -> PostgresEnumEntity {
    PostgresEnumEntity {
        name: "Mood",
        file: "src/lib.rs",
        line: 10,
        full_path: "demo::Mood",
        source_module_path: "demo",
        mappings: vec![
            RustSqlMapping {
                rust: "demo::Mood".to_string(),
                sql: "Mood".to_string(),
                id: TypeId::of::<Mood>(),
            },
            RustSqlMapping {
                rust: "Vec<demo::Mood>".to_string(),
                sql: "Mood[]".to_string(),
                id: TypeId::of::<Vec<Mood>>(),
            },
        ],
        variants: vec!["Sad", "Ok", "Happy"],
        to_sql_config: ToSqlConfigEntity::default(),
    }
}

fn point_ord() -> PostgresOrdEntity {
    PostgresOrdEntity {
        name: "Point",
        file: "src/point.rs",
        line: 7,
        full_path: "demo::Point",
        source_module_path: "demo",
        id: TypeId::of::<Point>(),
        to_sql_config: ToSqlConfigEntity::default(),
    }
}

fn point_hash() -> PostgresHashEntity {
    PostgresHashEntity {
        name: "Point",
        file: "src/point.rs",
        line: 8,
        full_path: "demo::Point",
        source_module_path: "demo",
        id: TypeId::of::<Point>(),
        to_sql_config: ToSqlConfigEntity::default(),
    }
}

fn root() -> ControlFile {
    ControlFile {
        comment: "demo".to_string(),
        default_version: "1.0".to_string(),
        module_pathname: None,
        relocatable: true,
        superuser: false,
        schema: Some("demo".to_string()),
        to_sql_config: ToSqlConfigEntity::default(),
    }
}

#[test]
fn id_matches_finds_any_registration() {
    let entity = mood();
    assert!(entity.id_matches(&TypeId::of::<Mood>()));
    assert!(entity.id_matches(&TypeId::of::<Vec<Mood>>()));
    assert!(!entity.id_matches(&TypeId::of::<Other>()));
}

#[test]
fn id_matches_is_false_without_registrations() {
    let mut entity = mood();
    entity.mappings.clear();
    assert!(!entity.id_matches(&TypeId::of::<Mood>()));
}

#[test]
fn type_id_matches_by_registration() {
    let ty = PostgresTypeEntity {
        name: "Point",
        file: "src/point.rs",
        line: 1,
        full_path: "demo::Point",
        source_module_path: "demo",
        mappings: vec![RustSqlMapping {
            rust: "demo::Point".to_string(),
            sql: "Point".to_string(),
            id: TypeId::of::<Point>(),
        }],
        in_fn: "point_in",
        in_fn_module_path: "demo".to_string(),
        out_fn: "point_out",
        out_fn_module_path: "demo".to_string(),
        to_sql_config: ToSqlConfigEntity::default(),
    };
    assert!(ty.id_matches(&TypeId::of::<Point>()));
    assert!(!ty.id_matches(&TypeId::of::<Mood>()));
}

#[test]
fn operator_function_names_are_lowercase() {
    let ord = point_ord();
    assert_eq!(ord.cmp_fn_name(), "point_cmp");
    assert_eq!(ord.lt_fn_name(), "point_lt");
    assert_eq!(ord.le_fn_name(), "point_le");
    assert_eq!(ord.eq_fn_name(), "point_eq");
    assert_eq!(ord.gt_fn_name(), "point_gt");
    assert_eq!(ord.ge_fn_name(), "point_ge");
    assert_eq!(point_hash().fn_name(), "point_hash");
}

#[test]
fn operator_function_names_lowercase_beyond_ascii() {
    let mut ord = point_ord();
    ord.name = "ÄB";
    assert_eq!(ord.cmp_fn_name(), "äb_cmp");
}

#[test]
fn hash_class_wires_equality_to_the_hash_function() {
    let fragment = point_hash().to_sql(&PgxSql::build(vec![])).unwrap();
    assert_eq!(
        fragment,
        "-- src/point.rs:8\n-- demo::Point\n\
         CREATE OPERATOR FAMILY Point_hash_ops USING hash;\n\
         CREATE OPERATOR CLASS Point_hash_ops DEFAULT FOR TYPE Point USING hash FAMILY Point_hash_ops AS\n\
         \tOPERATOR    1   =  (Point, Point),\n\
         \tFUNCTION    1   point_hash(Point);"
    );
}

#[test]
fn anchor_comment_names_place_and_identity() {
    assert_eq!(
        SqlGraphEntity::Enum(mood()).sql_anchor_comment(),
        "-- src/lib.rs:10\n-- demo::Mood"
    );
}

#[test]
fn anchor_comment_without_place_names_identity_only() {
    assert_eq!(SqlGraphEntity::BuiltinType("i32".to_string()).sql_anchor_comment(), "-- i32");
    assert_eq!(SqlGraphEntity::ExtensionRoot(root()).sql_anchor_comment(), "-- root");
}

#[test]
fn anchor_comment_writes_lines_in_decimal() {
    let mut entity = mood();
    entity.line = 0;
    assert_eq!(SqlGraphEntity::Enum(entity.clone()).sql_anchor_comment(), "-- src/lib.rs:0\n-- demo::Mood");
    entity.line = 7;
    assert_eq!(SqlGraphEntity::Enum(entity.clone()).sql_anchor_comment(), "-- src/lib.rs:7\n-- demo::Mood");
    entity.line = 1203;
    assert_eq!(
        SqlGraphEntity::Enum(entity.clone()).sql_anchor_comment(),
        "-- src/lib.rs:1203\n-- demo::Mood"
    );
    entity.line = u32::MAX;
    assert_eq!(
        SqlGraphEntity::Enum(entity).sql_anchor_comment(),
        "-- src/lib.rs:4294967295\n-- demo::Mood"
    );
}

#[test]
fn identifiers_tell_kind_and_source_name() {
    let schema = SchemaEntity { source_module_path: "demo::shapes", name: "shapes", file: "src/a.rs", line: 1, to_sql_config: ToSqlConfigEntity::default() };
    let sql = ExtensionSqlEntity {
        source_module_path: "demo",
        full_path: "demo::tables",
        sql: "CREATE TABLE t ();",
        file: "src/t.rs",
        line: 2,
        name: "tables",
        to_sql_config: ToSqlConfigEntity::default(),
    };
    assert_eq!(SqlGraphEntity::Enum(mood()).dot_identifier(), "enum demo::Mood");
    assert_eq!(SqlGraphEntity::Enum(mood()).rust_identifier(), "demo::Mood");
    assert_eq!(SqlGraphEntity::Ord(point_ord()).dot_identifier(), "ord demo::Point");
    assert_eq!(SqlGraphEntity::Hash(point_hash()).dot_identifier(), "hash demo::Point");
    assert_eq!(SqlGraphEntity::Schema(schema).dot_identifier(), "schema demo::shapes");
    assert_eq!(SqlGraphEntity::Schema(schema).rust_identifier(), "demo::shapes");
    assert_eq!(SqlGraphEntity::CustomSql(sql).dot_identifier(), "sql tables");
    assert_eq!(SqlGraphEntity::CustomSql(sql).rust_identifier(), "tables");
    assert_eq!(
        SqlGraphEntity::BuiltinType("i32".to_string()).dot_identifier(),
        "preexisting type i32"
    );
    assert_eq!(SqlGraphEntity::BuiltinType("i32".to_string()).rust_identifier(), "i32");
    assert_eq!(SqlGraphEntity::ExtensionRoot(root()).dot_identifier(), "extension root");
    assert_eq!(SqlGraphEntity::ExtensionRoot(root()).rust_identifier(), "root");
    assert_eq!(SqlGraphEntity::Enum(mood()).identity(), "demo::Mood");
}

#[test]
fn place_is_known_for_declared_entities_only() {
    assert_eq!(SqlGraphEntity::Enum(mood()).file(), Some("src/lib.rs"));
    assert_eq!(SqlGraphEntity::Enum(mood()).line(), Some(10));
    assert_eq!(mood().file(), Some("src/lib.rs"));
    assert_eq!(mood().line(), Some(10));
    assert_eq!(SqlGraphEntity::BuiltinType("i32".to_string()).file(), None);
    assert_eq!(SqlGraphEntity::BuiltinType("i32".to_string()).line(), None);
    assert_eq!(SqlGraphEntity::ExtensionRoot(root()).file(), None);
    assert_eq!(SqlGraphEntity::ExtensionRoot(root()).line(), None);
}

#[test]
fn kinds_are_told_apart() {
    assert_eq!(SqlGraphEntity::Enum(mood()).kind(), EntityKind::Enum);
    assert_eq!(SqlGraphEntity::Ord(point_ord()).kind(), EntityKind::Ord);
    assert_eq!(SqlGraphEntity::Hash(point_hash()).kind(), EntityKind::Hash);
    assert_eq!(SqlGraphEntity::ExtensionRoot(root()).kind(), EntityKind::ExtensionRoot);
    assert_eq!(SqlGraphEntity::BuiltinType("i32".to_string()).kind(), EntityKind::BuiltinType);
}

#[test]
fn root_fragment_holds_the_control_metadata() {
    assert_eq!(
        root().to_sql(),
        "-- root\n-- default_version = 1.0\n-- relocatable = true\n-- superuser = false\n-- schema = demo"
    );
}

#[test]
fn override_answers_in_three_ways() {
    let default = ToSqlConfigEntity::default();
    assert_eq!(default, ToSqlConfigEntity { enabled: true, content: None });
    assert_eq!(default.resolve(), SqlOverride::UseDefault);
    assert!(!default.overrides_default());
    assert_eq!(default.to_sql(), None);

    let replaced = ToSqlConfigEntity { enabled: true, content: Some("SELECT 1;") };
    assert_eq!(replaced.resolve(), SqlOverride::Replace("SELECT 1;"));
    assert!(replaced.overrides_default());
    assert_eq!(replaced.to_sql(), Some("SELECT 1;".to_string()));

    let skipped = ToSqlConfigEntity { enabled: false, content: None };
    assert_eq!(skipped.resolve(), SqlOverride::Skip);
    assert!(skipped.overrides_default());
    assert_eq!(skipped.to_sql(), Some(String::new()));

    let both = ToSqlConfigEntity { enabled: false, content: Some("SELECT 1;") };
    assert_eq!(both.resolve(), SqlOverride::Skip);
}

#[test]
fn replacement_text_is_emitted_as_it_stands() {
    let mut entity = mood();
    entity.to_sql_config = ToSqlConfigEntity { enabled: true, content: Some("CREATE TYPE mood AS (x int);") };
    let mut ord = point_ord();
    ord.to_sql_config = ToSqlConfigEntity { enabled: true, content: Some("-- by hand") };
    let graph = PgxSql::build(vec![SqlGraphEntity::Enum(entity), SqlGraphEntity::Ord(ord)]);
    assert_eq!(graph.entity(0).unwrap().to_sql(&graph).unwrap(), "CREATE TYPE mood AS (x int);");
    assert_eq!(graph.entity(1).unwrap().to_sql(&graph).unwrap(), "-- by hand");
    assert_eq!(graph.to_sql().unwrap(), "CREATE TYPE mood AS (x int);\n\n-- by hand");
}

#[test]
fn replacement_text_exempts_a_long_name() {
    let mut entity = mood();
    entity.name = "a234567890123456789012345678901234567890123456789012345678901234";
    entity.to_sql_config = ToSqlConfigEntity { enabled: true, content: Some("-- renamed by hand") };
    let graph = PgxSql::build(vec![SqlGraphEntity::Enum(entity)]);
    assert_eq!(graph.to_sql().unwrap(), "-- renamed by hand");
}

#[test]
fn skipped_entity_emits_nothing() {
    let mut entity = mood();
    entity.to_sql_config = ToSqlConfigEntity { enabled: false, content: None };
    let graph = PgxSql::build(vec![SqlGraphEntity::Enum(entity), SqlGraphEntity::Ord(point_ord())]);
    assert_eq!(graph.entity(0).unwrap().to_sql(&graph).unwrap(), "");
    let script = graph.to_sql().unwrap();
    assert!(script.starts_with("-- src/point.rs:7\n-- demo::Point\nCREATE OPERATOR FAMILY"));
    assert!(!script.contains("Mood"));
}

#[test]
fn enum_without_labels_has_an_empty_list() {
    let mut entity = mood();
    entity.variants.clear();
    let graph = PgxSql::build(vec![SqlGraphEntity::Enum(entity)]);
    assert_eq!(
        graph.to_sql().unwrap(),
        "-- src/lib.rs:10\n-- demo::Mood\nCREATE TYPE Mood AS ENUM (\n\n);"
    );
}

#[test]
fn enum_with_one_label_has_no_comma() {
    let mut entity = mood();
    entity.variants = vec!["Only"];
    let graph = PgxSql::build(vec![SqlGraphEntity::Enum(entity)]);
    assert_eq!(
        graph.to_sql().unwrap(),
        "-- src/lib.rs:10\n-- demo::Mood\nCREATE TYPE Mood AS ENUM (\n\t'Only'\n);"
    );
}

#[test]
fn entities_convert_into_graph_entities() {
    assert_eq!(SqlGraphEntity::from(mood()), SqlGraphEntity::Enum(mood()));
    assert_eq!(SqlGraphEntity::from(point_ord()), SqlGraphEntity::Ord(point_ord()));
    assert_eq!(SqlGraphEntity::from(point_hash()), SqlGraphEntity::Hash(point_hash()));
    assert_eq!(SqlGraphEntity::from(root()), SqlGraphEntity::ExtensionRoot(root()));
    let entity: SqlGraphEntity = mood().into();
    assert_eq!(entity.kind(), EntityKind::Enum);
}

#[test]
fn function_is_named_after_the_lowered_type_name() {
    assert_eq!(function_name("point", "_cmp"), "point_cmp");
    assert_eq!(function_name("point", "_hash"), "point_hash");
    assert_eq!(function_name("", "_lt"), "_lt");
    assert_eq!(function_name("äb", ""), "äb");
}

#[test]
fn ord_statements_are_written_from_prefix_and_function() {
    assert_eq!(
        point_ord().statement_with("", "point_cmp"),
        "-- src/point.rs:7\n-- demo::Point\n\
         CREATE OPERATOR FAMILY Point_btree_ops USING btree;\n\
         CREATE OPERATOR CLASS Point_btree_ops DEFAULT FOR TYPE Point USING btree FAMILY Point_btree_ops AS\n\
         \tOPERATOR 1 <,\n\tOPERATOR 2 <=,\n\tOPERATOR 3 =,\n\tOPERATOR 4 >=,\n\tOPERATOR 5 >,\n\
         \tFUNCTION 1 point_cmp(Point, Point);"
    );
    assert_eq!(
        point_ord().statement_with("app.", "compare_points"),
        "-- src/point.rs:7\n-- demo::Point\n\
         CREATE OPERATOR FAMILY app.Point_btree_ops USING btree;\n\
         CREATE OPERATOR CLASS app.Point_btree_ops DEFAULT FOR TYPE app.Point USING btree FAMILY app.Point_btree_ops AS\n\
         \tOPERATOR 1 <,\n\tOPERATOR 2 <=,\n\tOPERATOR 3 =,\n\tOPERATOR 4 >=,\n\tOPERATOR 5 >,\n\
         \tFUNCTION 1 app.compare_points(app.Point, app.Point);"
    );
}

#[test]
fn hash_statements_are_written_from_prefix_and_function() {
    assert_eq!(
        point_hash().statement_with("app.", "hash_point"),
        "-- src/point.rs:8\n-- demo::Point\n\
         CREATE OPERATOR FAMILY app.Point_hash_ops USING hash;\n\
         CREATE OPERATOR CLASS app.Point_hash_ops DEFAULT FOR TYPE app.Point USING hash FAMILY app.Point_hash_ops AS\n\
         \tOPERATOR    1   =  (app.Point, app.Point),\n\
         \tFUNCTION    1   app.hash_point(app.Point);"
    );
}

#[test]
fn operator_classes_take_the_prefix_of_their_schema() {
    let app = SchemaEntity {
        source_module_path: "demo",
        name: "app",
        file: "src/a.rs",
        line: 1,
        to_sql_config: ToSqlConfigEntity::default(),
    };
    let graph = PgxSql::build(vec![
        SqlGraphEntity::Ord(point_ord()),
        SqlGraphEntity::Hash(point_hash()),
        SqlGraphEntity::Schema(app),
    ]);
    assert_eq!(
        graph.render(0).unwrap(),
        "-- src/point.rs:7\n-- demo::Point\n\
         CREATE OPERATOR FAMILY app.Point_btree_ops USING btree;\n\
         CREATE OPERATOR CLASS app.Point_btree_ops DEFAULT FOR TYPE app.Point USING btree FAMILY app.Point_btree_ops AS\n\
         \tOPERATOR 1 <,\n\tOPERATOR 2 <=,\n\tOPERATOR 3 =,\n\tOPERATOR 4 >=,\n\tOPERATOR 5 >,\n\
         \tFUNCTION 1 app.point_cmp(app.Point, app.Point);"
    );
    assert_eq!(
        graph.render(1).unwrap(),
        "-- src/point.rs:8\n-- demo::Point\n\
         CREATE OPERATOR FAMILY app.Point_hash_ops USING hash;\n\
         CREATE OPERATOR CLASS app.Point_hash_ops DEFAULT FOR TYPE app.Point USING hash FAMILY app.Point_hash_ops AS\n\
         \tOPERATOR    1   =  (app.Point, app.Point),\n\
         \tFUNCTION    1   app.point_hash(app.Point);"
    );
    assert_eq!(point_ord().to_sql(&graph).unwrap(), graph.render(0).unwrap());
    assert_eq!(point_hash().to_sql(&graph).unwrap(), graph.render(1).unwrap());
}

#[test]
fn operator_classes_in_an_implicit_schema_have_no_prefix() {
    for name in ["public", "pg_catalog"] {
        let implicit = SchemaEntity {
            source_module_path: "demo",
            name,
            file: "src/a.rs",
            line: 1,
            to_sql_config: ToSqlConfigEntity::default(),
        };
        let graph = PgxSql::build(vec![
            SqlGraphEntity::Schema(implicit),
            SqlGraphEntity::Ord(point_ord()),
            SqlGraphEntity::Hash(point_hash()),
        ]);
        assert_eq!(graph.render(1).unwrap(), point_ord().statement_with("", "point_cmp"));
        assert_eq!(graph.render(2).unwrap(), point_hash().statement_with("", "point_hash"));
        assert!(!graph.to_sql().unwrap().contains(&format!("{}.", name)));
    }
}

#[test]
fn override_goes_before_the_rule_of_every_kind() {
    let replaced = ToSqlConfigEntity { enabled: true, content: Some("-- by hand") };
    let skipped = ToSqlConfigEntity { enabled: false, content: None };
    let public = SchemaEntity {
        source_module_path: "demo",
        name: "public",
        file: "src/a.rs",
        line: 1,
        to_sql_config: replaced,
    };
    let mut replaced_root = root();
    replaced_root.to_sql_config = replaced;
    let mut skipped_root = root();
    skipped_root.to_sql_config = skipped;
    let sql = ExtensionSqlEntity {
        source_module_path: "demo",
        full_path: "demo::tables",
        sql: "CREATE TABLE t ();",
        file: "src/t.rs",
        line: 2,
        name: "tables",
        to_sql_config: replaced,
    };
    let mut skipped_sql = sql;
    skipped_sql.to_sql_config = skipped;
    let mut skipped_schema = public;
    skipped_schema.name = "shapes";
    skipped_schema.to_sql_config = skipped;
    let graph = PgxSql::build(vec![
        SqlGraphEntity::Schema(public),
        SqlGraphEntity::ExtensionRoot(replaced_root),
        SqlGraphEntity::ExtensionRoot(skipped_root),
        SqlGraphEntity::CustomSql(sql),
        SqlGraphEntity::CustomSql(skipped_sql),
        SqlGraphEntity::Schema(skipped_schema),
    ]);
    assert_eq!(graph.entity(0).unwrap().resolve_override(), SqlOverride::Replace("-- by hand"));
    assert_eq!(graph.render(0).unwrap(), "-- by hand");
    assert_eq!(graph.render(1).unwrap(), "-- by hand");
    assert_eq!(graph.render(2).unwrap(), "");
    assert_eq!(graph.render(3).unwrap(), "-- by hand");
    assert_eq!(graph.render(4).unwrap(), "");
    assert_eq!(graph.render(5).unwrap(), "");
    assert_eq!(
        SqlGraphEntity::BuiltinType("i32".to_string()).resolve_override(),
        SqlOverride::UseDefault
    );
}

#[test]
fn long_schema_name_is_exempted_by_an_override() {
    let long = SchemaEntity {
        source_module_path: "demo",
        name: "a234567890123456789012345678901234567890123456789012345678901234",
        file: "src/a.rs",
        line: 1,
        to_sql_config: ToSqlConfigEntity { enabled: true, content: Some("CREATE SCHEMA short;") },
    };
    let graph = PgxSql::build(vec![SqlGraphEntity::Schema(long)]);
    assert_eq!(graph.to_sql().unwrap(), "CREATE SCHEMA short;");
}

#[test]
fn registrations_are_kept_as_a_set() {
    let first = RustSqlMapping {
        rust: "demo::Mood".to_string(),
        sql: "Mood".to_string(),
        id: TypeId::of::<Mood>(),
    };
    let array = RustSqlMapping {
        rust: "Vec<demo::Mood>".to_string(),
        sql: "Mood[]".to_string(),
        id: TypeId::of::<Vec<Mood>>(),
    };
    let renamed = RustSqlMapping {
        rust: "demo::Mood".to_string(),
        sql: "mood".to_string(),
        id: TypeId::of::<Mood>(),
    };
    assert!(first.is_same_as(&first.clone()));
    assert!(!first.is_same_as(&array));
    assert!(!first.is_same_as(&renamed));
    let mut mappings = Vec::new();
    assert!(register_mapping(&mut mappings, first.clone()));
    assert!(register_mapping(&mut mappings, array.clone()));
    assert!(!register_mapping(&mut mappings, first.clone()));
    assert!(!register_mapping(&mut mappings, array.clone()));
    assert!(register_mapping(&mut mappings, renamed.clone()));
    assert_eq!(mappings, vec![first, array, renamed]);
}
