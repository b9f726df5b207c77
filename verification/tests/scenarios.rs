use core::any::TypeId;

use pgx_sql_entity_graph::{
    ControlFile, PgExternArgumentEntity, PgExternEntity, PgExternReturnEntity, PgxSql,
    PostgresEnumEntity, PostgresOrdEntity, PostgresTypeEntity, RustSqlMapping, SchemaEntity,
    SqlGraphEntity, ToSqlConfigEntity, UsedTypeEntity,
};

struct Mood;
struct Point;
struct Json;

fn mapping<T: 'static>(rust: &str, sql: &str) -> RustSqlMapping {
    RustSqlMapping { rust: rust.to_string(), sql: sql.to_string(), id: TypeId::of::<T>() }
}

fn mood() -> PostgresEnumEntity {
    PostgresEnumEntity {
        name: "Mood",
        file: "src/lib.rs",
        line: 10,
        full_path: "demo::Mood",
        source_module_path: "demo",
        mappings: vec![mapping::<Mood>("demo::Mood", "Mood")],
        variants: vec!["Sad", "Ok", "Happy"],
        to_sql_config: ToSqlConfigEntity::default(),
    }
}

fn point_ord() -> PostgresOrdEntity {
    PostgresOrdEntity {
        name: "Point",
        file: "src/point.rs",
        line: 7,
        full_path: "demo::Point",
        source_module_path: "demo",
        id: TypeId::of::<Point>(),
        to_sql_config: ToSqlConfigEntity::default(),
    }
}

fn json_type() -> PostgresTypeEntity {
    PostgresTypeEntity {
        name: "Json",
        file: "src/json.rs",
        line: 3,
        full_path: "demo::Json",
        source_module_path: "demo",
        mappings: vec![mapping::<Json>("demo::Json", "Json")],
        in_fn: "json_in",
        in_fn_module_path: "demo".to_string(),
        out_fn: "json_out",
        out_fn_module_path: "demo".to_string(),
        to_sql_config: ToSqlConfigEntity::default(),
    }
}

fn cstring() -> UsedTypeEntity {
    UsedTypeEntity {
        ty_source: "&CStr",
        ty_id: TypeId::of::<&'static str>(),
        full_path: "&core::ffi::CStr",
        sql: Some("cstring"),
    }
}

fn json_used() -> UsedTypeEntity {
    UsedTypeEntity {
        ty_source: "Json",
        ty_id: TypeId::of::<Json>(),
        full_path: "demo::Json",
        sql: Some("Json"),
    }
}

fn json_in() -> PgExternEntity {
    PgExternEntity {
        name: "json_in",
        unaliased_name: "json_in",
        source_module_path: "demo",
        full_path: "demo::json_in",
        file: "src/json.rs",
        line: 20,
        fn_args: vec![PgExternArgumentEntity { pattern: "input", used_ty: cstring() }],
        fn_return: PgExternReturnEntity::Type { ty: json_used() },
        to_sql_config: ToSqlConfigEntity::default(),
    }
}

fn json_out() -> PgExternEntity {
    PgExternEntity {
        name: "json_out",
        unaliased_name: "json_out",
        source_module_path: "demo",
        full_path: "demo::json_out",
        file: "src/json.rs",
        line: 30,
        fn_args: vec![PgExternArgumentEntity { pattern: "value", used_ty: json_used() }],
        fn_return: PgExternReturnEntity::Type { ty: cstring() },
        to_sql_config: ToSqlConfigEntity::default(),
    }
}

fn root() -> ControlFile {
    ControlFile {
        comment: "demo".to_string(),
        default_version: "1.0".to_string(),
        module_pathname: None,
        relocatable: false,
        superuser: true,
        schema: None,
        to_sql_config: ToSqlConfigEntity::default(),
    }
}

#[test]
fn enum_fragment_lists_labels_in_declared_order() {
    let graph = PgxSql::build(vec![SqlGraphEntity::Enum(mood())]);
    let fragment = graph.entity(0).unwrap().to_sql(&graph).unwrap();
    assert_eq!(
        fragment,
        "-- src/lib.rs:10\n-- demo::Mood\nCREATE TYPE Mood AS ENUM (\n\t'Sad',\n\t'Ok',\n\t'Happy'\n);"
    );
}

#[test]
fn ord_class_wires_five_operators_to_one_comparison_function() {
    let graph = PgxSql::build(vec![SqlGraphEntity::Ord(point_ord())]);
    let script = graph.to_sql().unwrap();
    assert_eq!(script.matches("CREATE OPERATOR FAMILY Point_btree_ops USING btree").count(), 1);
    assert_eq!(script.matches("\tOPERATOR ").count(), 5);
    assert!(script.contains("\tOPERATOR 1 <,\n\tOPERATOR 2 <=,\n\tOPERATOR 3 =,\n\tOPERATOR 4 >=,\n\tOPERATOR 5 >,\n"));
    assert!(script.ends_with("\tFUNCTION 1 point_cmp(Point, Point);"));
    assert_eq!(
        script,
        "-- src/point.rs:7\n-- demo::Point\n\
         CREATE OPERATOR FAMILY Point_btree_ops USING btree;\n\
         CREATE OPERATOR CLASS Point_btree_ops DEFAULT FOR TYPE Point USING btree FAMILY Point_btree_ops AS\n\
         \tOPERATOR 1 <,\n\tOPERATOR 2 <=,\n\tOPERATOR 3 =,\n\tOPERATOR 4 >=,\n\tOPERATOR 5 >,\n\
         \tFUNCTION 1 point_cmp(Point, Point);"
    );
}

#[test]
fn converter_is_declared_only_inside_the_block_of_its_type() {
    let graph = PgxSql::build(vec![
        SqlGraphEntity::Function(json_in()),
        SqlGraphEntity::Type(json_type()),
        SqlGraphEntity::Function(json_out()),
    ]);
    let alone = graph.entity(0).unwrap().to_sql(&graph).unwrap();
    assert_eq!(alone, "");
    let alone = graph.entity(2).unwrap().to_sql(&graph).unwrap();
    assert_eq!(alone, "");
    let script = graph.to_sql().unwrap();
    assert_eq!(script.matches("CREATE FUNCTION \"json_in\"").count(), 1);
    assert_eq!(script.matches("CREATE FUNCTION \"json_out\"").count(), 1);
    assert_eq!(
        script,
        "-- src/json.rs:3\n-- demo::Json\nCREATE TYPE Json;\n\n\
         -- src/json.rs:20\n-- demo::json_in\n\
         CREATE FUNCTION \"json_in\"(\n\t\"input\" cstring /* &core::ffi::CStr */\n) RETURNS Json\n\
         LANGUAGE c /* Rust */\nAS 'MODULE_PATHNAME', 'json_in_wrapper';\n\n\
         -- src/json.rs:30\n-- demo::json_out\n\
         CREATE FUNCTION \"json_out\"(\n\t\"value\" Json /* demo::Json */\n) RETURNS cstring\n\
         LANGUAGE c /* Rust */\nAS 'MODULE_PATHNAME', 'json_out_wrapper';\n\n\
         CREATE TYPE Json (\n\tINTERNALLENGTH = variable,\n\tINPUT = json_in,\n\tOUTPUT = json_out,\n\tSTORAGE = extended\n);"
    );
}

#[test]
fn root_opens_the_script_and_schema_qualifies_its_members() {
    let schema = SchemaEntity { source_module_path: "demo", name: "shapes", file: "src/a.rs", line: 1, to_sql_config: ToSqlConfigEntity::default() };
    let graph = PgxSql::build(vec![
        SqlGraphEntity::Enum(mood()),
        SqlGraphEntity::Schema(schema),
        SqlGraphEntity::ExtensionRoot(root()),
    ]);
    assert_eq!(graph.emission_order(), &vec![2, 1, 0]);
    assert_eq!(graph.schema_prefix_for(0), "shapes.");
    let script = graph.to_sql().unwrap();
    assert_eq!(
        script,
        "-- root\n-- default_version = 1.0\n-- relocatable = false\n-- superuser = true\n\n\
         -- src/a.rs:1\n-- demo\nCREATE SCHEMA IF NOT EXISTS shapes;\n\n\
         -- src/lib.rs:10\n-- demo::Mood\nCREATE TYPE shapes.Mood AS ENUM (\n\t'Sad',\n\t'Ok',\n\t'Happy'\n);"
    );
}
