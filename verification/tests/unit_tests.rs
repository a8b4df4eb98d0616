use almacen::appinfo::{format_file_size, make_database_info, normalize_path};
use almacen::coerce::{MissingFieldPolicy, convert_json_to_sql};
use almacen::allocator::{allocate_key, first_gap_successor, next_candidate};
use almacen::quoting::{quote_identifier, quote_identifier_if_needed};
use almacen::schema::{ColClass, classify_column_type, is_protected_column};
use almacen::strutil::{i64_to_string, str_contains, u64_to_string};
use almacen::values::{JsonVal, SqlVal, json_to_rusqlite, rusqlite_to_json};

#[test]
fn quoting_strict_wraps_plain_identifier() {
    assert_eq!(quote_identifier("identifier"), "\"identifier\"");
}

#[test]
fn quoting_loose_keeps_plain_identifier() {
    assert_eq!(quote_identifier_if_needed("identifier"), "identifier");
    assert_eq!(quote_identifier_if_needed("tabla_2"), "tabla_2");
}

#[test]
fn quoting_loose_quotes_special_identifier() {
    assert_eq!(quote_identifier_if_needed("No."), "\"No.\"");
    assert_eq!(quote_identifier_if_needed("two words"), "\"two words\"");
}

#[test]
fn quoting_doubles_embedded_quotes() {
    assert_eq!(quote_identifier("a\"b"), "\"a\"\"b\"");
    assert_eq!(quote_identifier("No."), "\"No.\"");
}

#[test]
fn allocator_fills_first_gap() {
    assert_eq!(first_gap_successor(&vec![1, 2, 4]), Some(3));
    assert_eq!(first_gap_successor(&vec![2, 1, 4]), Some(3));
    assert_eq!(first_gap_successor(&vec![]), None);
}

#[test]
fn allocator_candidate_is_max_plus_one() {
    assert_eq!(next_candidate(&vec![]), 1);
    assert_eq!(next_candidate(&vec![1, 2, 4]), 5);
}

#[test]
fn allocator_without_collision_takes_candidate() {
    assert_eq!(allocate_key(&vec![], &vec![]), 1);
    assert_eq!(allocate_key(&vec![1, 2, 4], &vec![1, 2, 4]), 5);
}

#[test]
fn allocator_avoids_externally_inserted_value() {
    // The candidate from the first snapshot is 5; an external writer has
    // slipped 5 in by the time of the re-check, so 5 must not come back.
    let existing = vec![1, 2, 3, 4];
    let current = vec![1, 2, 3, 4, 5];
    let key = allocate_key(&existing, &current);
    assert_ne!(key, 5);
    assert!(!current.contains(&key));
    assert_eq!(key, 6);
}

#[test]
fn allocator_collision_fills_gap() {
    // Candidate 3 collides; the first gap in the current values is 4.
    let existing = vec![1, 2];
    let current = vec![1, 2, 3, 6];
    assert_eq!(allocate_key(&existing, &current), 4);
}

#[test]
fn classify_recognizes_tags() {
    assert_eq!(classify_column_type("BLOB"), ColClass::Blob);
    assert_eq!(classify_column_type("DATETIME"), ColClass::DateTime);
    assert_eq!(classify_column_type("TEXT"), ColClass::Generic);
    assert_eq!(classify_column_type("blob"), ColClass::Generic);
    assert_eq!(classify_column_type(""), ColClass::Generic);
}

#[test]
fn protected_columns_ignore_case() {
    assert!(is_protected_column("ID"));
    assert!(is_protected_column("id"));
    assert!(is_protected_column("zona"));
    assert!(is_protected_column("ZONA"));
    assert!(is_protected_column("Campus"));
    assert!(is_protected_column("cAmPuS"));
    assert!(!is_protected_column("name"));
    assert!(!is_protected_column("zona_campus"));
}

#[test]
fn coercion_decodes_base64_for_blob_columns() {
    let tag = String::from("BLOB");
    let v = convert_json_to_sql(&JsonVal::Str(String::from("AQID")), Some(&tag)).unwrap();
    assert_eq!(v, SqlVal::Blob(vec![1, 2, 3]));
}

#[test]
fn coercion_falls_back_to_text_for_invalid_base64() {
    let tag = String::from("BLOB");
    let v = convert_json_to_sql(&JsonVal::Str(String::from("né!")), Some(&tag)).unwrap();
    assert_eq!(v, SqlVal::Text(String::from("né!")));
}

#[test]
fn coercion_maps_plain_kinds() {
    assert_eq!(convert_json_to_sql(&JsonVal::Null, None).unwrap(), SqlVal::Null);
    assert_eq!(convert_json_to_sql(&JsonVal::Bool(true), None).unwrap(), SqlVal::Int(1));
    assert_eq!(convert_json_to_sql(&JsonVal::Bool(false), None).unwrap(), SqlVal::Int(0));
    assert_eq!(convert_json_to_sql(&JsonVal::Int(-7), None).unwrap(), SqlVal::Int(-7));
    assert_eq!(
        convert_json_to_sql(&JsonVal::Str(String::from("hola")), None).unwrap(),
        SqlVal::Text(String::from("hola"))
    );
    assert!(convert_json_to_sql(&JsonVal::Other(String::from("[1]")), None).is_err());
}

#[test]
fn import_export_value_mapping() {
    assert_eq!(json_to_rusqlite(&JsonVal::Bool(true)).unwrap(), SqlVal::Int(1));
    assert_eq!(
        json_to_rusqlite(&JsonVal::Str(String::from("x"))).unwrap(),
        SqlVal::Text(String::from("x"))
    );
    assert!(json_to_rusqlite(&JsonVal::Other(String::from("{}"))).is_err());
    assert_eq!(rusqlite_to_json(SqlVal::Blob(vec![1, 2])), JsonVal::Null);
    assert_eq!(rusqlite_to_json(SqlVal::Int(4)), JsonVal::Int(4));
    assert_eq!(rusqlite_to_json(SqlVal::Null), JsonVal::Null);
}

#[test]
fn decimal_rendering() {
    assert_eq!(u64_to_string(0), "0");
    assert_eq!(u64_to_string(907), "907");
    assert_eq!(i64_to_string(-45), "-45");
    assert_eq!(i64_to_string(i64::MIN), "-9223372036854775808");
    assert_eq!(i64_to_string(i64::MAX), "9223372036854775807");
}

#[test]
fn file_sizes_are_human_readable() {
    assert_eq!(format_file_size(0), "0 B");
    assert_eq!(format_file_size(512), "512 B");
    assert_eq!(format_file_size(1023), "1023 B");
    assert_eq!(format_file_size(1024), "1.00 KB");
    assert_eq!(format_file_size(1536), "1.50 KB");
    assert_eq!(format_file_size(10 * 1024), "10.0 KB");
    assert_eq!(format_file_size(5 * 1024 * 1024), "5.00 MB");
    assert_eq!(format_file_size(10 * 1024 * 1024), "10.0 MB");
    assert_eq!(format_file_size(3 * 1024 * 1024 * 1024), "3.00 GB");
    assert_eq!(format_file_size(2 * 1024 * 1024 * 1024 * 1024), "2.00 TB");
}

#[test]
fn paths_are_normalized() {
    assert_eq!(normalize_path("\\\\?\\C:\\data\\file.db"), "C:/data/file.db");
    assert_eq!(normalize_path("/home/user/file.db"), "/home/user/file.db");
    assert_eq!(normalize_path("a\\b"), "a/b");
}

#[test]
fn database_info_is_assembled() {
    let info = make_database_info(
        String::from("inventario"),
        true,
        2048,
        String::from("2024-05-01"),
        String::from("/data/inventario.db"),
    );
    assert_eq!(info.name, "inventario");
    assert_eq!(info.status, "En uso");
    assert_eq!(info.size, "2.00 KB");
    let other = make_database_info(
        String::from("otro"),
        false,
        1,
        String::from("2024-05-01"),
        String::from("/data/otro.db"),
    );
    assert_eq!(other.status, "Inactivo");
}

#[test]
fn substring_search() {
    assert!(str_contains("duplicate column name: x", "duplicate column name"));
    assert!(!str_contains("no such table", "duplicate column name"));
    assert!(str_contains("abc", ""));
}
