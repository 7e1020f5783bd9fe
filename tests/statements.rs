use sqlparser::ast::{
    display_comma_separated, display_separated, Fragment, FromTable, InsertAliases,
    MysqlInsertPriority, SqliteOnConflict,
};
use sqlparser::dml::{CreateIndex, Delete, Insert};
use sqlparser::text::{decimal_text, escape_cluster_name};

fn frag(s: &str) -> Fragment {
    Fragment::new(s.to_string())
}

fn frags(items: &[&str]) -> Vec<Fragment> {
    items.iter().map(|s| frag(s)).collect()
}

fn insert(table: &str) -> Insert {
    Insert {
        or: None,
        ignore: false,
        into: false,
        table_name: frag(table),
        table_alias: None,
        columns: vec![],
        overwrite: false,
        source: None,
        partitioned: None,
        after_columns: vec![],
        table: false,
        on: None,
        returning: None,
        replace_into: false,
        priority: None,
        insert_alias: None,
    }
}

fn index(name: Option<&str>, table: &str, columns: &[&str]) -> CreateIndex {
    CreateIndex {
        name: name.map(frag),
        table_name: frag(table),
        using: None,
        columns: frags(columns),
        unique: false,
        concurrently: false,
        if_not_exists: false,
        included: vec![],
        nulls_distinct: None,
        predicate: None,
    }
}

fn delete(from: FromTable) -> Delete {
    Delete {
        tables: vec![],
        from,
        using: None,
        selection: None,
        returning: None,
        order_by: vec![],
        limit: None,
    }
}

fn render_insert(i: &Insert) -> String {
    let mut out = String::new();
    i.fmt(&mut out);
    out
}

fn render_index(i: &CreateIndex) -> String {
    let mut out = String::new();
    i.fmt(&mut out);
    out
}

fn render_delete(d: &Delete) -> String {
    let mut out = String::new();
    d.fmt(&mut out);
    out
}

#[test]
fn insert_into_columns_from_query() {
    let mut i = insert("t");
    i.into = true;
    i.columns = frags(&["a", "b"]);
    i.source = Some(Box::new(frag("SELECT 1, 2")));
    assert_eq!(render_insert(&i), "INSERT INTO t (a, b) SELECT 1, 2");
    assert_eq!(render_insert(&i), render_insert(&i.clone()));
}

#[test]
fn insert_without_source_or_columns_uses_default_values() {
    let mut i = insert("t");
    i.into = true;
    assert_eq!(render_insert(&i), "INSERT INTO t DEFAULT VALUES");
}

#[test]
fn insert_sqlite_conflict_clause_follows_insert() {
    let mut i = insert("t");
    i.or = Some(SqliteOnConflict::Replace);
    i.ignore = true;
    i.source = Some(Box::new(frag("VALUES (1)")));
    assert_eq!(render_insert(&i), "INSERT OR REPLACE INTO t VALUES (1)");
}

#[test]
fn insert_mysql_modifiers_and_alias() {
    let mut i = insert("t");
    i.replace_into = true;
    i.priority = Some(MysqlInsertPriority::LowPriority);
    i.ignore = true;
    i.into = true;
    i.source = Some(Box::new(frag("VALUES (1, 2)")));
    i.insert_alias = Some(InsertAliases {
        row_alias: frag("new"),
        col_aliases: Some(frags(&["x", "y"])),
    });
    i.on = Some(frag(" ON DUPLICATE KEY UPDATE a = x"));
    assert_eq!(
        render_insert(&i),
        "REPLACE LOW_PRIORITY IGNORE INTO t VALUES (1, 2) AS new (x, y) ON DUPLICATE KEY UPDATE a = x"
    );
}

#[test]
fn insert_hive_overwrite_partition() {
    let mut i = insert("t");
    i.overwrite = true;
    i.table = true;
    i.partitioned = Some(frags(&["p = 1"]));
    i.after_columns = frags(&["c"]);
    i.source = Some(Box::new(frag("SELECT c FROM s")));
    assert_eq!(
        render_insert(&i),
        "INSERT OVERWRITE TABLE t PARTITION (p = 1) (c) SELECT c FROM s"
    );
}

#[test]
fn insert_alias_and_returning() {
    let mut i = insert("t");
    i.into = true;
    i.table_alias = Some(frag("x"));
    i.columns = frags(&["a"]);
    i.source = Some(Box::new(frag("VALUES (1)")));
    i.returning = Some(frags(&["a", "b"]));
    assert_eq!(render_insert(&i), "INSERT INTO t AS x (a) VALUES (1) RETURNING a, b");
}

#[test]
fn create_index_full() {
    let mut i = index(Some("idx_name"), "test", &["name", "age DESC"]);
    i.unique = true;
    i.if_not_exists = true;
    assert_eq!(
        render_index(&i),
        "CREATE UNIQUE INDEX IF NOT EXISTS idx_name ON test(name,age DESC)"
    );
    let mut i = index(None, "t", &["a"]);
    i.concurrently = true;
    i.using = Some(frag("btree"));
    i.included = frags(&["b", "c"]);
    i.nulls_distinct = Some(false);
    i.predicate = Some(frag("a > 0"));
    assert_eq!(
        render_index(&i),
        "CREATE INDEX CONCURRENTLY ON t USING btree (a) INCLUDE (b,c) NULLS NOT DISTINCT WHERE a > 0"
    );
    i.nulls_distinct = Some(true);
    i.predicate = None;
    assert_eq!(
        render_index(&i),
        "CREATE INDEX CONCURRENTLY ON t USING btree (a) INCLUDE (b,c) NULLS DISTINCT"
    );
}

#[test]
fn delete_with_from_keyword() {
    let mut d = delete(FromTable::WithFromKeyword(frags(&["t"])));
    d.selection = Some(frag("a = 1"));
    d.returning = Some(frags(&["a"]));
    assert_eq!(render_delete(&d), "DELETE FROM t WHERE a = 1 RETURNING a");
}

#[test]
fn delete_multi_table_without_keyword() {
    let mut d = delete(FromTable::WithoutKeyword(frags(&["t1 JOIN t2 ON t1.id = t2.id"])));
    d.tables = frags(&["t1", "t2"]);
    d.using = Some(frags(&["u"]));
    d.order_by = frags(&["a", "b DESC"]);
    d.limit = Some(frag("10"));
    assert_eq!(
        render_delete(&d),
        "DELETE t1, t2 t1 JOIN t2 ON t1.id = t2.id USING u ORDER BY a, b DESC LIMIT 10"
    );
}

#[test]
fn list_renderers() {
    assert_eq!(display_comma_separated(&vec![]), "");
    assert_eq!(display_comma_separated(&frags(&["a"])), "a");
    assert_eq!(display_comma_separated(&frags(&["a", "b", "c"])), "a, b, c");
    assert_eq!(display_separated(&frags(&["x", "y"]), " "), "x y");
}

#[test]
fn decimal_numbers() {
    assert_eq!(decimal_text(0), "0");
    assert_eq!(decimal_text(7), "7");
    assert_eq!(decimal_text(4096), "4096");
    assert_eq!(decimal_text(u32::MAX), "4294967295");
}

#[test]
fn cluster_name_escaping() {
    assert_eq!(escape_cluster_name("a{b}"), "a'{b}'");
    assert_eq!(escape_cluster_name("}{"), "}''{");
    assert_eq!(escape_cluster_name("é{x"), "é'{x");
    assert_eq!(escape_cluster_name(""), "");
}

#[test]
fn absent_fields_remove_only_their_clause_in_other_statements() {
    let mut i = index(Some("idx"), "t", &["a"]);
    i.unique = true;
    i.predicate = Some(frag("a > 0"));
    let full = render_index(&i);
    let mut j = i.clone();
    j.unique = false;
    assert_eq!(render_index(&j), full.replace("UNIQUE ", ""));
    let mut j = i.clone();
    j.predicate = None;
    assert_eq!(render_index(&j), full.replace(" WHERE a > 0", ""));

    let mut d = delete(FromTable::WithFromKeyword(frags(&["t"])));
    d.selection = Some(frag("a = 1"));
    d.limit = Some(frag("5"));
    let full = render_delete(&d);
    let mut e = d.clone();
    e.limit = None;
    assert_eq!(render_delete(&e), full.replace(" LIMIT 5", ""));

    let mut n = insert("t");
    n.into = true;
    n.ignore = true;
    n.table_alias = Some(frag("x"));
    n.source = Some(Box::new(frag("VALUES (1)")));
    let full = render_insert(&n);
    assert_eq!(full, "INSERT IGNORE INTO t AS x VALUES (1)");
    let mut m = n.clone();
    m.ignore = false;
    assert_eq!(render_insert(&m), full.replace(" IGNORE", ""));
    let mut m = n.clone();
    m.table_alias = None;
    assert_eq!(render_insert(&m), full.replace(" AS x", ""));
}
