use almacen::errors::DbError;
use almacen::importexport::{
    TableExport, export_table_to_json, import_table_from_json, import_table_from_json_with_options,
    rename_create_statement,
};
use almacen::values::JsonVal;

fn open_mem() -> rusqlite::Connection {
    rusqlite::Connection::open_in_memory().unwrap()
}

fn record_value(record: &Vec<(String, JsonVal)>, key: &str) -> JsonVal {
    for (k, v) in record.iter() {
        if k == key {
            return v.clone();
        }
    }
    panic!("missing key {}", key);
}

#[test]
fn rename_rewrites_plain_header() {
    let renamed = rename_create_statement(
        "CREATE TABLE assets (\"No.\" TEXT, name TEXT)",
        "assets",
        "equipos",
    );
    assert_eq!(renamed, "CREATE TABLE \"equipos\" (\"No.\" TEXT, name TEXT)");
}

#[test]
fn rename_rewrites_quoted_and_lowercase_headers() {
    assert_eq!(
        rename_create_statement("create table \"assets\" (x TEXT)", "assets", "equipos"),
        "CREATE TABLE \"equipos\" (x TEXT)"
    );
    assert_eq!(
        rename_create_statement("CREATE  TABLE `Assets` (x TEXT)", "assets", "equipos"),
        "CREATE TABLE \"equipos\" (x TEXT)"
    );
}

#[test]
fn rename_keeps_if_not_exists_group() {
    assert_eq!(
        rename_create_statement("CREATE TABLE IF NOT EXISTS assets (x)", "assets", "equipos"),
        "CREATE TABLE IF NOT EXISTS \"equipos\" (x)"
    );
}

#[test]
fn rename_leaves_unrelated_text_alone() {
    assert_eq!(
        rename_create_statement("CREATE TABLE otros (x)", "assets", "equipos"),
        "CREATE TABLE otros (x)"
    );
    assert_eq!(rename_create_statement("", "assets", "equipos"), "");
}

#[test]
fn export_then_import_round_trips_rows() {
    let conn_a = open_mem();
    conn_a
        .execute("CREATE TABLE assets (\"No.\" TEXT, name TEXT)", [])
        .unwrap();
    conn_a.execute("INSERT INTO assets VALUES ('1', 'laptop')", []).unwrap();
    conn_a.execute("INSERT INTO assets VALUES ('2', 'monitor')", []).unwrap();

    let doc = export_table_to_json(&conn_a, "assets").unwrap();
    assert_eq!(doc.table_name, "assets");
    assert!(doc.create_statement.contains("CREATE TABLE"));
    assert_eq!(doc.data.len(), 2);

    let mut conn_b = open_mem();
    assert_eq!(import_table_from_json(&mut conn_b, &doc).unwrap(), true);
    let table = almacen::adapter::consulta_tabla(&conn_b, "assets").unwrap();
    assert_eq!(table.rows.len(), 2);
    assert_eq!(record_value(&table.rows[0], "name"), JsonVal::Str(String::from("laptop")));
    assert_eq!(record_value(&table.rows[1], "name"), JsonVal::Str(String::from("monitor")));
}

#[test]
fn import_refuses_existing_table_unless_forced() {
    let mut conn = open_mem();
    conn.execute("CREATE TABLE assets (\"No.\" TEXT, name TEXT)", []).unwrap();
    conn.execute("INSERT INTO assets VALUES ('1', 'old')", []).unwrap();

    let doc = export_table_to_json(&conn, "assets").unwrap();
    let refused = import_table_from_json(&mut conn, &doc);
    assert!(matches!(refused, Err(DbError::DuplicateTable(_))));

    // Forced, the table is replaced inside one transaction.
    assert_eq!(
        import_table_from_json_with_options(&mut conn, &doc, true, &None).unwrap(),
        true
    );
    let table = almacen::adapter::consulta_tabla(&conn, "assets").unwrap();
    assert_eq!(table.rows.len(), 1);
}

#[test]
fn import_under_new_name_rewrites_create_text() {
    let mut conn = open_mem();
    conn.execute("CREATE TABLE assets (\"No.\" TEXT, name TEXT)", []).unwrap();
    conn.execute("INSERT INTO assets VALUES ('1', 'laptop')", []).unwrap();

    let doc = export_table_to_json(&conn, "assets").unwrap();
    let renamed = Some(String::from("equipos"));
    assert_eq!(
        import_table_from_json_with_options(&mut conn, &doc, false, &renamed).unwrap(),
        true
    );
    assert!(almacen::tables::check_table_exists(&conn, "equipos").unwrap());
    let table = almacen::adapter::consulta_tabla(&conn, "equipos").unwrap();
    assert_eq!(record_value(&table.rows[0], "name"), JsonVal::Str(String::from("laptop")));
}

#[test]
fn import_rejects_structured_values() {
    let mut conn = open_mem();
    let doc = TableExport {
        table_name: String::from("cosas"),
        create_statement: String::from("CREATE TABLE cosas (x TEXT)"),
        data: vec![vec![(String::from("x"), JsonVal::Other(String::from("[1,2]")))]],
    };
    let r = import_table_from_json(&mut conn, &doc);
    assert!(matches!(r, Err(DbError::UnsupportedValue(_))));
    // The transaction never committed: the table is absent, not half-filled.
    assert!(!almacen::tables::check_table_exists(&conn, "cosas").unwrap());
}

#[test]
fn export_blobs_become_null() {
    let conn = open_mem();
    conn.execute("CREATE TABLE fotos (id TEXT, img BLOB)", []).unwrap();
    conn.execute("INSERT INTO fotos VALUES ('1', x'010203')", []).unwrap();
    let doc = export_table_to_json(&conn, "fotos").unwrap();
    assert_eq!(record_value(&doc.data[0], "img"), JsonVal::Null);
    assert_eq!(record_value(&doc.data[0], "id"), JsonVal::Str(String::from("1")));
}

#[test]
fn export_of_missing_table_is_a_schema_error() {
    let conn = open_mem();
    let r = export_table_to_json(&conn, "nada");
    assert!(matches!(r, Err(DbError::Schema(_))));
}

#[test]
fn import_of_empty_document_creates_the_table() {
    let mut conn = open_mem();
    let doc = TableExport {
        table_name: String::from("vacia"),
        create_statement: String::from("CREATE TABLE vacia (x TEXT)"),
        data: vec![],
    };
    assert_eq!(import_table_from_json(&mut conn, &doc).unwrap(), true);
    assert!(almacen::tables::check_table_exists(&conn, "vacia").unwrap());
    let table = almacen::adapter::consulta_tabla(&conn, "vacia").unwrap();
    assert_eq!(table.rows.len(), 0);
}
