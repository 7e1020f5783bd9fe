use sqlparser::ast::{
    FileFormat, Fragment, HiveDistributionStyle, HiveFormat, HiveIOFormat, HiveRowFormat, OnCommit,
};
use sqlparser::dml::{CreateTable, RenderError};

fn frag(s: &str) -> Fragment {
    Fragment::new(s.to_string())
}

fn frags(items: &[&str]) -> Vec<Fragment> {
    items.iter().map(|s| frag(s)).collect()
}

fn table(name: &str) -> CreateTable {
    CreateTable {
        or_replace: false,
        temporary: false,
        external: false,
        global: None,
        if_not_exists: false,
        transient: false,
        name: frag(name),
        columns: vec![],
        constraints: vec![],
        hive_distribution: HiveDistributionStyle::NONE,
        hive_formats: None,
        table_properties: vec![],
        with_options: vec![],
        file_format: None,
        location: None,
        query: None,
        without_rowid: false,
        like: None,
        clone: None,
        engine: None,
        comment: None,
        auto_increment_offset: None,
        default_charset: None,
        collation: None,
        on_commit: None,
        on_cluster: None,
        primary_key: None,
        order_by: None,
        partition_by: None,
        cluster_by: None,
        options: None,
        strict: false,
    }
}

fn render(t: &CreateTable) -> String {
    let mut out = String::new();
    t.fmt(&mut out).expect("renders");
    out
}

fn busy_table() -> CreateTable {
    let mut t = table("t");
    t.or_replace = true;
    t.global = Some(true);
    t.temporary = true;
    t.if_not_exists = true;
    t.on_cluster = Some("c".to_string());
    t.columns = frags(&["a INT", "b TEXT"]);
    t.constraints = frags(&["PRIMARY KEY (a)"]);
    t.without_rowid = true;
    t.like = Some(frag("base"));
    t.hive_distribution = HiveDistributionStyle::PARTITIONED { columns: frags(&["p INT"]) };
    t.table_properties = frags(&["'k' = 'v'"]);
    t.with_options = frags(&["fillfactor = 70"]);
    t.engine = Some(frag("MergeTree()"));
    t.comment = Some("note".to_string());
    t.auto_increment_offset = Some(123);
    t.primary_key = Some(Box::new(frag("a")));
    t.order_by = Some(frag("(a, b)"));
    t.partition_by = Some(Box::new(frag("DATE(ts)")));
    t.cluster_by = Some(frags(&["a", "b"]));
    t.options = Some(frags(&["x = 1"]));
    t.query = Some(Box::new(frag("SELECT 1")));
    t.default_charset = Some("utf8".to_string());
    t.collation = Some("utf8_bin".to_string());
    t.on_commit = Some(OnCommit::Drop);
    t.strict = true;
    t
}

const BUSY: &str = "CREATE OR REPLACE GLOBAL TEMPORARY TABLE IF NOT EXISTS t ON CLUSTER c \
(a INT, b TEXT, PRIMARY KEY (a)) WITHOUT ROWID LIKE base PARTITIONED BY (p INT) \
TBLPROPERTIES ('k' = 'v') WITH (fillfactor = 70) ENGINE=MergeTree() COMMENT 'note' \
AUTO_INCREMENT 123 PRIMARY KEY a ORDER BY (a, b) PARTITION BY DATE(ts) CLUSTER BY a, b \
OPTIONS(x = 1) AS SELECT 1 DEFAULT CHARSET=utf8 COLLATE=utf8_bin ON COMMIT DROP STRICT";

#[test]
fn rendering_twice_gives_identical_text() {
    let t = busy_table();
    assert_eq!(render(&t), render(&t));
    assert_eq!(render(&t.clone()), render(&t));
}

#[test]
fn clauses_come_in_fixed_order() {
    let text = render(&busy_table());
    assert_eq!(text, BUSY);
    let order = [
        "CREATE", "OR REPLACE", "GLOBAL", "TEMPORARY", "TABLE", "IF NOT EXISTS", "ON CLUSTER",
        "(a INT", "WITHOUT ROWID", "LIKE", "PARTITIONED BY", "TBLPROPERTIES", "WITH (", "ENGINE=",
        "COMMENT", "AUTO_INCREMENT", "PRIMARY KEY a", "ORDER BY", "PARTITION BY", "CLUSTER BY a",
        "OPTIONS(", "AS SELECT", "DEFAULT CHARSET", "COLLATE", "ON COMMIT", "STRICT",
    ];
    let positions: Vec<usize> = order.iter().map(|w| text.find(w).unwrap()).collect();
    for pair in positions.windows(2) {
        assert!(pair[0] < pair[1]);
    }
}

#[test]
fn absent_optional_fields_remove_only_their_clause() {
    let full = render(&busy_table());
    let mut t = busy_table();
    t.comment = None;
    assert_eq!(render(&t), full.replace(" COMMENT 'note'", ""));
    let mut t = busy_table();
    t.strict = false;
    assert_eq!(render(&t), full.replace(" STRICT", ""));
    let mut t = busy_table();
    t.if_not_exists = false;
    assert_eq!(render(&t), full.replace("IF NOT EXISTS ", ""));
    let mut t = busy_table();
    t.global = None;
    assert_eq!(render(&t), full.replace("GLOBAL ", ""));
    let mut t = busy_table();
    t.on_commit = None;
    assert_eq!(render(&t), full.replace(" ON COMMIT DROP", ""));
    let mut t = busy_table();
    t.cluster_by = None;
    assert_eq!(render(&t), full.replace(" CLUSTER BY a, b", ""));
    let mut t = busy_table();
    t.table_properties = vec![];
    assert_eq!(render(&t), full.replace(" TBLPROPERTIES ('k' = 'v')", ""));
}

#[test]
fn cluster_name_braces_are_escaped() {
    let mut t = table("t");
    t.on_cluster = Some("a{b}".to_string());
    assert_eq!(render(&t), "CREATE TABLE t ON CLUSTER a'{b}' ()");
    t.on_cluster = Some("{shard}{replica}".to_string());
    assert_eq!(render(&t), "CREATE TABLE t ON CLUSTER '{shard}''{replica}' ()");
    t.on_cluster = Some("plain".to_string());
    assert_eq!(render(&t), "CREATE TABLE t ON CLUSTER plain ()");
}

#[test]
fn degenerate_table_has_empty_parentheses() {
    assert_eq!(render(&table("t")), "CREATE TABLE t ()");
}

#[test]
fn table_from_query_like_or_clone_has_no_parentheses() {
    let mut t = table("t");
    t.query = Some(Box::new(frag("SELECT a FROM t2")));
    assert_eq!(render(&t), "CREATE TABLE t AS SELECT a FROM t2");
    let mut t = table("t");
    t.like = Some(frag("t2"));
    assert_eq!(render(&t), "CREATE TABLE t LIKE t2");
    let mut t = table("t");
    t.clone = Some(frag("t2"));
    assert_eq!(render(&t), "CREATE TABLE t CLONE t2");
}

#[test]
fn columns_and_constraints_are_separated_only_when_both_exist() {
    let mut t = table("t");
    t.columns = frags(&["a INT"]);
    assert_eq!(render(&t), "CREATE TABLE t (a INT)");
    t.constraints = frags(&["UNIQUE (a)", "CHECK (a > 0)"]);
    assert_eq!(render(&t), "CREATE TABLE t (a INT, UNIQUE (a), CHECK (a > 0))");
    t.columns = vec![];
    assert_eq!(render(&t), "CREATE TABLE t (UNIQUE (a), CHECK (a > 0))");
}

#[test]
fn external_table_stores_format_and_location() {
    let mut t = table("t");
    t.external = true;
    t.file_format = Some(FileFormat::PARQUET);
    t.location = Some("/data".to_string());
    assert_eq!(render(&t), "CREATE EXTERNAL TABLE t () STORED AS PARQUET LOCATION '/data'");
    t.file_format = None;
    assert_eq!(render(&t), "CREATE EXTERNAL TABLE t () LOCATION '/data'");
}

#[test]
fn external_table_without_location_is_refused() {
    let mut t = table("t");
    t.external = true;
    t.file_format = Some(FileFormat::PARQUET);
    let mut out = String::from("prefix");
    assert_eq!(t.fmt(&mut out), Err(RenderError::MissingLocation));
    assert_eq!(out, "prefix");
}

#[test]
fn clustered_distribution() {
    let mut t = table("t");
    t.columns = frags(&["a INT"]);
    t.hive_distribution = HiveDistributionStyle::CLUSTERED {
        columns: frags(&["a", "b"]),
        sorted_by: frags(&["c"]),
        num_buckets: 4,
    };
    assert_eq!(
        render(&t),
        "CREATE TABLE t (a INT) CLUSTERED BY (a, b) SORTED BY (c) INTO 4 BUCKETS"
    );
    t.hive_distribution = HiveDistributionStyle::CLUSTERED {
        columns: frags(&["a", "b"]),
        sorted_by: vec![],
        num_buckets: 0,
    };
    assert_eq!(render(&t), "CREATE TABLE t (a INT) CLUSTERED BY (a, b)");
}

#[test]
fn skewed_distribution() {
    let mut t = table("t");
    t.hive_distribution = HiveDistributionStyle::SKEWED {
        columns: frags(&["a INT"]),
        on: frags(&["1", "2"]),
        stored_as_directories: true,
    };
    assert_eq!(
        render(&t),
        "CREATE TABLE t () SKEWED BY (a INT)) ON (1, 2) STORED AS DIRECTORIES"
    );
}

#[test]
fn hive_formats_block() {
    let mut t = table("t");
    t.hive_formats = Some(HiveFormat {
        row_format: Some(HiveRowFormat::DELIMITED {
            delimiters: frags(&["FIELDS TERMINATED BY ','", "LINES TERMINATED BY '\\n'"]),
        }),
        serde_properties: Some(frags(&["'a' = 'b'"])),
        storage: Some(HiveIOFormat::FileFormat { format: FileFormat::ORC }),
        location: Some("/warehouse".to_string()),
    });
    assert_eq!(
        render(&t),
        "CREATE TABLE t () ROW FORMAT DELIMITED FIELDS TERMINATED BY ',' LINES TERMINATED BY '\\n' \
STORED AS ORC WITH SERDEPROPERTIES ('a' = 'b') LOCATION '/warehouse'"
    );
    t.hive_formats = Some(HiveFormat {
        row_format: Some(HiveRowFormat::SERDE { class: "org.Serde".to_string() }),
        serde_properties: None,
        storage: Some(HiveIOFormat::IOF {
            input_format: frag("'in.Format'"),
            output_format: frag("'out.Format'"),
        }),
        location: None,
    });
    assert_eq!(
        render(&t),
        "CREATE TABLE t () ROW FORMAT SERDE 'org.Serde' STORED AS INPUTFORMAT 'in.Format' \
OUTPUTFORMAT 'out.Format'"
    );
}

#[test]
fn external_table_skips_hive_file_format_and_location() {
    let mut t = table("t");
    t.external = true;
    t.location = Some("/ext".to_string());
    t.hive_formats = Some(HiveFormat {
        row_format: Some(HiveRowFormat::DELIMITED { delimiters: vec![] }),
        serde_properties: None,
        storage: Some(HiveIOFormat::FileFormat { format: FileFormat::TEXTFILE }),
        location: Some("/hive".to_string()),
    });
    t.file_format = Some(FileFormat::TEXTFILE);
    assert_eq!(
        render(&t),
        "CREATE EXTERNAL TABLE t () ROW FORMAT DELIMITED STORED AS TEXTFILE LOCATION '/ext'"
    );
}

#[test]
fn scope_and_transient_keywords() {
    let mut t = table("t");
    t.global = Some(false);
    t.transient = true;
    assert_eq!(render(&t), "CREATE LOCAL TRANSIENT TABLE t ()");
}

#[test]
fn on_commit_phrases() {
    let mut t = table("t");
    t.on_commit = Some(OnCommit::DeleteRows);
    assert_eq!(render(&t), "CREATE TABLE t () ON COMMIT DELETE ROWS");
    t.on_commit = Some(OnCommit::PreserveRows);
    assert_eq!(render(&t), "CREATE TABLE t () ON COMMIT PRESERVE ROWS");
}

#[test]
fn auto_increment_numbers() {
    let mut t = table("t");
    t.auto_increment_offset = Some(0);
    assert_eq!(render(&t), "CREATE TABLE t () AUTO_INCREMENT 0");
    t.auto_increment_offset = Some(u32::MAX);
    assert_eq!(render(&t), "CREATE TABLE t () AUTO_INCREMENT 4294967295");
}

#[test]
fn render_appends_to_existing_text() {
    let mut out = String::from("-- ");
    table("t").fmt(&mut out).unwrap();
    assert_eq!(out, "-- CREATE TABLE t ()");
}
