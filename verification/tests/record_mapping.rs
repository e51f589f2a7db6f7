//! A record type with hand-written mapper and table capabilities, and its
//! row round trip.

use debil_mysql::{
    Error, FieldAttribute, MySQLValue, RowMap, SQLMapper, SQLTable, SQLValue, SchemaColumn,
};

#[derive(Debug)]
struct R {
    s: String,
    n: i32,
}

impl SQLMapper for R {
    fn map_from_sql(values: RowMap) -> Result<R, Error> {
        let mut m = values;
        let s: String = m.take_column("s")?;
        let n: i32 = m.take_column("n")?;
        Ok(R { s, n })
    }
}

// The proof obligations of the table capability are checked by the verifier
// only for implementations inside the library; here they are stubs.

impl SQLTable for R {
    fn table_name() -> String {
        "r_table".to_string()
    }

    fn schema_of() -> Vec<SchemaColumn> {
        vec![
            SchemaColumn::new(
                "s".to_string(),
                "varchar(50)".to_string(),
                FieldAttribute::default(),
            ),
            SchemaColumn::new("n".to_string(), "int".to_string(), FieldAttribute::default()),
        ]
    }

    fn map_to_sql(self) -> Vec<(String, MySQLValue)> {
        vec![
            ("s".to_string(), SQLValue::serialize(self.s)),
            ("n".to_string(), SQLValue::serialize(self.n)),
        ]
    }

    fn lemma_schema_wf() {
    }

    fn lemma_row_wf(self) {
    }

    fn lemma_roundtrip(self) {
    }
}

#[test]
fn record_roundtrip_through_row_map() {
    let r = R { s: "abc".to_string(), n: 5 };
    let pairs = r.map_to_sql();
    assert!(RowMap::names_distinct(&pairs));
    let m = RowMap::from_pairs(pairs);
    assert!(m.contains("s") && m.contains("n"));
    assert!(!m.contains("missing"));
    let back = R::map_from_sql(m).unwrap();
    assert_eq!(back.s, "abc");
    assert_eq!(back.n, 5);
}

#[test]
fn take_column_removes_the_column() {
    let r = R { s: "abc".to_string(), n: 5 };
    let mut m = RowMap::from_pairs(r.map_to_sql());
    let taken: String = m.take_column("s").unwrap();
    assert_eq!(taken, "abc");
    assert!(!m.contains("s"));
    assert!(m.contains("n"));
}

#[test]
fn missing_column_is_shape_mismatch() {
    let pairs = vec![("s".to_string(), MySQLValue::Text("abc".to_string()))];
    let m = RowMap::from_pairs(pairs);
    let err = R::map_from_sql(m).unwrap_err();
    assert!(matches!(err, Error::ShapeMismatchError(ref c) if c == "n"));
}

#[test]
fn mismatched_wire_shape_is_shape_mismatch() {
    let pairs = vec![
        ("s".to_string(), MySQLValue::Int(3)),
        ("n".to_string(), MySQLValue::Int(5)),
    ];
    let m = RowMap::from_pairs(pairs);
    let err = R::map_from_sql(m).unwrap_err();
    assert!(matches!(err, Error::ShapeMismatchError(ref c) if c == "s"));
}

#[test]
fn table_queries_for_record() {
    assert_eq!(debil_mysql::table_name::<R>(), "r_table");
    let q = debil_mysql::create_table_query(&R::table_name(), &R::schema_of());
    assert_eq!(q, "CREATE TABLE IF NOT EXISTS r_table (s varchar(50), n int)");
    let q = debil_mysql::drop_table_query(&R::table_name());
    assert_eq!(q, "DROP TABLE IF EXISTS r_table");
}
