//! The statements and their renderers. Each renderer appends the statement's
//! text to a caller's buffer, clause by clause in a fixed order, and is proved
//! to append exactly the text that the statement's spec function describes.
use vstd::prelude::*;

use crate::ast::{
    boxed_text, comma_joined, display_comma_separated, display_separated, frag_text,
    nonempty_list, opt_list, opt_prefixed, opt_wrapped, priority_text, push_list, push_opt,
    push_opt_boxed, push_opt_list, push_opt_string, push_opt_wrapped, scope_text, string_text,
    texts, ColumnDef, Expr, FileFormat, FromTable, HiveDistributionStyle, HiveFormat,
    HiveIOFormat, HiveRowFormat, Ident, InsertAliases, MysqlInsertPriority, ObjectName, OnCommit,
    OnInsert, OneOrManyWithParens, OrderByExpr, Query, SelectItem, SqlOption, SqliteOnConflict,
    TableConstraint, TableEngine, TableWithJoins,
};
use crate::text::{
    concat, decimal, decimal_text, escape_braces, escape_cluster_name, flag, join,
    lemma_concat_step, push_flag, push_prefixed, push_wrapped,
};

verus! {

/// Why a statement could not be rendered.
#[derive(Debug, Clone, Copy, PartialEq, Eq, Structural)]
pub enum RenderError {
    /// An external table names no location.
    MissingLocation,
}

/// CREATE TABLE statement.
#[derive(Debug, Clone, PartialEq, PartialOrd, Eq, Ord, Hash)]
pub struct CreateTable {
    pub or_replace: bool,
    pub temporary: bool,
    pub external: bool,
    pub global: Option<bool>,
    pub if_not_exists: bool,
    pub transient: bool,
    /// Table name
    pub name: ObjectName,
    /// Optional schema
    pub columns: Vec<ColumnDef>,
    pub constraints: Vec<TableConstraint>,
    pub hive_distribution: HiveDistributionStyle,
    pub hive_formats: Option<HiveFormat>,
    pub table_properties: Vec<SqlOption>,
    pub with_options: Vec<SqlOption>,
    pub file_format: Option<FileFormat>,
    pub location: Option<String>,
    pub query: Option<Box<Query>>,
    pub without_rowid: bool,
    pub like: Option<ObjectName>,
    pub clone: Option<ObjectName>,
    pub engine: Option<TableEngine>,
    pub comment: Option<String>,
    pub auto_increment_offset: Option<u32>,
    pub default_charset: Option<String>,
    pub collation: Option<String>,
    pub on_commit: Option<OnCommit>,
    /// ClickHouse "ON CLUSTER" clause
    pub on_cluster: Option<String>,
    /// ClickHouse "PRIMARY KEY" clause
    pub primary_key: Option<Box<Expr>>,
    /// ClickHouse "ORDER BY" clause; an omitted ORDER BY differs from an
    /// empty one (`()`), which means "no sorting"
    pub order_by: Option<OneOrManyWithParens>,
    /// BigQuery partition expression
    pub partition_by: Option<Box<Expr>>,
    /// BigQuery clustering column list
    pub cluster_by: Option<Vec<Ident>>,
    /// BigQuery table options
    pub options: Option<Vec<SqlOption>>,
    /// SQLite "STRICT" table option
    pub strict: bool,
}

/// The number of clauses of a CREATE TABLE statement.
pub const CREATE_TABLE_CLAUSES: usize = 32;

/// A Hive distribution clause.
pub open spec fn distribution_text(d: HiveDistributionStyle) -> Seq<char> {
    match d {
        HiveDistributionStyle::PARTITIONED { columns } => " PARTITIONED BY ("@ + comma_joined(
            columns@,
        ) + ")"@,
        HiveDistributionStyle::CLUSTERED { columns, sorted_by, num_buckets } => " CLUSTERED BY ("@
            + comma_joined(columns@) + ")"@ + nonempty_list(" SORTED BY ("@, sorted_by@, ")"@)
            + flag(num_buckets > 0, " INTO "@ + decimal(num_buckets as nat) + " BUCKETS"@),
        HiveDistributionStyle::SKEWED { columns, on, stored_as_directories } => " SKEWED BY ("@
            + comma_joined(columns@) + ")) ON ("@ + comma_joined(on@) + ")"@ + flag(
            stored_as_directories,
            " STORED AS DIRECTORIES"@,
        ),
        HiveDistributionStyle::NONE => seq![],
    }
}

/// A Hive row format clause.
pub open spec fn row_format_text(r: Option<HiveRowFormat>) -> Seq<char> {
    match r {
        Some(HiveRowFormat::SERDE { class }) => " ROW FORMAT SERDE '"@ + class@ + "'"@,
        Some(HiveRowFormat::DELIMITED { delimiters }) => " ROW FORMAT DELIMITED"@ + flag(
            delimiters.len() > 0,
            " "@ + join(texts(delimiters@), " "@),
        ),
        None => seq![],
    }
}

/// A Hive storage clause; a named file format is left to the external
/// clause when the table is external.
pub open spec fn storage_text(s: Option<HiveIOFormat>, external: bool) -> Seq<char> {
    match s {
        Some(HiveIOFormat::IOF { input_format, output_format }) => " STORED AS INPUTFORMAT "@
            + input_format@ + " OUTPUTFORMAT "@ + output_format@,
        Some(HiveIOFormat::FileFormat { format }) => flag(
            !external,
            " STORED AS "@ + format.spec_keyword(),
        ),
        None => seq![],
    }
}

/// The Hive storage block of a table.
pub open spec fn hive_format_text(h: Option<HiveFormat>, external: bool) -> Seq<char> {
    match h {
        Some(h) => row_format_text(h.row_format) + storage_text(h.storage, external) + opt_list(
            " WITH SERDEPROPERTIES ("@,
            h.serde_properties,
            ")"@,
        ) + flag(!external, opt_wrapped(" LOCATION '"@, string_text(h.location), "'"@)),
        None => seq![],
    }
}

impl CreateTable {
    /// The statement can be rendered: an external table names its location.
    pub open spec fn renderable(&self) -> bool {
        self.external ==> self.location is Some
    }

    /// The parenthesised column and constraint list; a bare `()` stands for
    /// an empty table that is not made from a query, LIKE or CLONE.
    pub open spec fn spec_column_list(&self) -> Seq<char> {
        if self.columns.len() > 0 || self.constraints.len() > 0 {
            " ("@ + comma_joined(self.columns@) + flag(
                self.columns.len() > 0 && self.constraints.len() > 0,
                ", "@,
            ) + comma_joined(self.constraints@) + ")"@
        } else if self.query is None && self.like is None && self.clone is None {
            " ()"@
        } else {
            seq![]
        }
    }

    /// The storage format and location of an external table.
    pub open spec fn spec_external(&self) -> Seq<char> {
        flag(
            self.external,
            match self.file_format {
                Some(f) => " STORED AS "@ + f.spec_keyword(),
                None => seq![],
            } + " LOCATION '"@ + match self.location {
                Some(l) => l@,
                None => seq![],
            } + "'"@,
        )
    }

    /// Clause `k` of the statement, in the order in which clauses are written.
    pub open spec fn clause(&self, k: int) -> Seq<char> {
        if k == 0 {
            "CREATE "@
        } else if k == 1 {
            flag(self.or_replace, "OR REPLACE "@)
        } else if k == 2 {
            flag(self.external, "EXTERNAL "@)
        } else if k == 3 {
            scope_text(self.global)
        } else if k == 4 {
            flag(self.temporary, "TEMPORARY "@)
        } else if k == 5 {
            flag(self.transient, "TRANSIENT "@)
        } else if k == 6 {
            "TABLE "@
        } else if k == 7 {
            flag(self.if_not_exists, "IF NOT EXISTS "@)
        } else if k == 8 {
            self.name@
        } else if k == 9 {
            match self.on_cluster {
                Some(c) => " ON CLUSTER "@ + escape_braces(c@),
                None => seq![],
            }
        } else if k == 10 {
            self.spec_column_list()
        } else if k == 11 {
            flag(self.without_rowid, " WITHOUT ROWID"@)
        } else if k == 12 {
            opt_prefixed(" LIKE "@, frag_text(self.like))
        } else if k == 13 {
            opt_prefixed(" CLONE "@, frag_text(self.clone))
        } else if k == 14 {
            distribution_text(self.hive_distribution)
        } else if k == 15 {
            hive_format_text(self.hive_formats, self.external)
        } else if k == 16 {
            self.spec_external()
        } else if k == 17 {
            nonempty_list(" TBLPROPERTIES ("@, self.table_properties@, ")"@)
        } else if k == 18 {
            nonempty_list(" WITH ("@, self.with_options@, ")"@)
        } else if k == 19 {
            opt_prefixed(" ENGINE="@, frag_text(self.engine))
        } else if k == 20 {
            opt_wrapped(" COMMENT '"@, string_text(self.comment), "'"@)
        } else if k == 21 {
            match self.auto_increment_offset {
                Some(n) => " AUTO_INCREMENT "@ + decimal(n as nat),
                None => seq![],
            }
        } else if k == 22 {
            opt_prefixed(" PRIMARY KEY "@, boxed_text(self.primary_key))
        } else if k == 23 {
            opt_prefixed(" ORDER BY "@, frag_text(self.order_by))
        } else if k == 24 {
            opt_prefixed(" PARTITION BY "@, boxed_text(self.partition_by))
        } else if k == 25 {
            opt_list(" CLUSTER BY "@, self.cluster_by, ""@)
        } else if k == 26 {
            opt_list(" OPTIONS("@, self.options, ")"@)
        } else if k == 27 {
            opt_prefixed(" AS "@, boxed_text(self.query))
        } else if k == 28 {
            opt_prefixed(" DEFAULT CHARSET="@, string_text(self.default_charset))
        } else if k == 29 {
            opt_prefixed(" COLLATE="@, string_text(self.collation))
        } else if k == 30 {
            match self.on_commit {
                Some(c) => " "@ + c.spec_phrase(),
                None => seq![],
            }
        } else {
            flag(self.strict, " STRICT"@)
        }
    }

    /// The clauses of the statement, in order.
    pub open spec fn clauses(&self) -> Seq<Seq<char>> {
        Seq::new(CREATE_TABLE_CLAUSES as nat, |k: int| self.clause(k))
    }

    /// The text of the statement.
    pub open spec fn spec_sql(&self) -> Seq<char> {
        concat(self.clauses())
    }
}

fn write_row_format(out: &mut String, r: &Option<HiveRowFormat>)
    ensures
        final(out)@ == old(out)@ + row_format_text(*r),
{
    let ghost start = out@;
    match r {
        Some(HiveRowFormat::SERDE { class }) => {
            push_wrapped(out, " ROW FORMAT SERDE '", class.as_str(), "'");
        },
        Some(HiveRowFormat::DELIMITED { delimiters }) => {
            out.append(" ROW FORMAT DELIMITED");
            if delimiters.len() > 0 {
                let d = display_separated(delimiters, " ");
                push_prefixed(out, " ", d.as_str());
            }
            assert(out@ =~= start + row_format_text(*r));
        },
        None => {
            assert(out@ + row_format_text(*r) =~= out@);
        },
    }
}

fn write_storage(out: &mut String, s: &Option<HiveIOFormat>, external: bool)
    ensures
        final(out)@ == old(out)@ + storage_text(*s, external),
{
    let ghost start = out@;
    match s {
        Some(HiveIOFormat::IOF { input_format, output_format }) => {
            push_prefixed(out, " STORED AS INPUTFORMAT ", input_format.sql.as_str());
            push_prefixed(out, " OUTPUTFORMAT ", output_format.sql.as_str());
            assert(out@ =~= start + storage_text(*s, external));
        },
        Some(HiveIOFormat::FileFormat { format }) => {
            if !external {
                push_prefixed(out, " STORED AS ", format.keyword());
            } else {
                assert(out@ + storage_text(*s, external) =~= out@);
            }
        },
        None => {
            assert(out@ + storage_text(*s, external) =~= out@);
        },
    }
}

impl CreateTable {
    fn write_on_cluster(&self, out: &mut String)
        ensures
            final(out)@ == old(out)@ + self.clause(9),
    {
        match &self.on_cluster {
            Some(c) => {
                let escaped = escape_cluster_name(c.as_str());
                push_prefixed(out, " ON CLUSTER ", escaped.as_str());
            },
            None => {
                assert(out@ + self.clause(9) =~= out@);
            },
        }
    }

    fn write_column_list(&self, out: &mut String)
        ensures
            final(out)@ == old(out)@ + self.spec_column_list(),
    {
        let ghost start = out@;
        if self.columns.len() > 0 || self.constraints.len() > 0 {
            out.append(" (");
            let cols = display_comma_separated(&self.columns);
            out.append(cols.as_str());
            push_flag(out, self.columns.len() > 0 && self.constraints.len() > 0, ", ");
            let cons = display_comma_separated(&self.constraints);
            out.append(cons.as_str());
            out.append(")");
            assert(out@ =~= start + self.spec_column_list());
        } else if self.query.is_none() && self.like.is_none() && self.clone.is_none() {
            out.append(" ()");
        } else {
            assert(out@ + self.spec_column_list() =~= out@);
        }
    }

    fn write_distribution(&self, out: &mut String)
        ensures
            final(out)@ == old(out)@ + distribution_text(self.hive_distribution),
    {
        let ghost start = out@;
        match &self.hive_distribution {
            HiveDistributionStyle::PARTITIONED { columns } => {
                let cols = display_comma_separated(columns);
                push_wrapped(out, " PARTITIONED BY (", cols.as_str(), ")");
            },
            HiveDistributionStyle::CLUSTERED { columns, sorted_by, num_buckets } => {
                let cols = display_comma_separated(columns);
                push_wrapped(out, " CLUSTERED BY (", cols.as_str(), ")");
                push_list(out, " SORTED BY (", sorted_by, ")");
                let ghost mid = out@;
                if *num_buckets > 0 {
                    let n = decimal_text(*num_buckets as u32);
                    push_wrapped(out, " INTO ", n.as_str(), " BUCKETS");
                } else {
                    assert(out@ =~= mid + flag(false, seq![]));
                }
                assert(out@ =~= start + distribution_text(self.hive_distribution));
            },
            HiveDistributionStyle::SKEWED { columns, on, stored_as_directories } => {
                let cols = display_comma_separated(columns);
                let ons = display_comma_separated(on);
                push_wrapped(out, " SKEWED BY (", cols.as_str(), ")) ON (");
                out.append(ons.as_str());
                out.append(")");
                push_flag(out, *stored_as_directories, " STORED AS DIRECTORIES");
                assert(out@ =~= start + distribution_text(self.hive_distribution));
            },
            HiveDistributionStyle::NONE => {
                assert(out@ + distribution_text(self.hive_distribution) =~= out@);
            },
        }
    }

    fn write_hive_formats(&self, out: &mut String)
        ensures
            final(out)@ == old(out)@ + hive_format_text(self.hive_formats, self.external),
    {
        let ghost start = out@;
        match &self.hive_formats {
            Some(h) => {
                write_row_format(out, &h.row_format);
                write_storage(out, &h.storage, self.external);
                push_opt_list(out, " WITH SERDEPROPERTIES (", &h.serde_properties, ")");
                let ghost mid = out@;
                if !self.external {
                    push_opt_wrapped(out, " LOCATION '", &h.location, "'");
                } else {
                    assert(out@ =~= mid + flag(false, seq![]));
                }
                assert(out@ =~= start + hive_format_text(self.hive_formats, self.external));
            },
            None => {
                assert(out@ + hive_format_text(self.hive_formats, self.external) =~= out@);
            },
        }
    }

    fn write_external(&self, out: &mut String)
        requires
            self.renderable(),
        ensures
            final(out)@ == old(out)@ + self.spec_external(),
    {
        let ghost start = out@;
        if self.external {
            match self.file_format {
                Some(f) => push_prefixed(out, " STORED AS ", f.keyword()),
                None => {},
            }
            match &self.location {
                Some(l) => push_wrapped(out, " LOCATION '", l.as_str(), "'"),
                None => {},
            }
            assert(out@ =~= start + self.spec_external());
        } else {
            assert(out@ + self.spec_external() =~= out@);
        }
    }

    fn write_auto_increment(&self, out: &mut String)
        ensures
            final(out)@ == old(out)@ + self.clause(21),
    {
        match self.auto_increment_offset {
            Some(n) => {
                let t = decimal_text(n);
                push_prefixed(out, " AUTO_INCREMENT ", t.as_str());
            },
            None => {
                assert(out@ + self.clause(21) =~= out@);
            },
        }
    }

    fn write_on_commit(&self, out: &mut String)
        ensures
            final(out)@ == old(out)@ + self.clause(30),
    {
        match self.on_commit {
            Some(c) => push_prefixed(out, " ", c.phrase()),
            None => {
                assert(out@ + self.clause(30) =~= out@);
            },
        }
    }

    fn write_head(&self, out: &mut String)
        requires
            old(out)@ == concat(self.clauses().take(0)),
        ensures
            final(out)@ == concat(self.clauses().take(9)),
    {
        let ghost parts = self.clauses();
        out.append("CREATE ");
        proof { lemma_concat_step(parts, 0); }
        push_flag(out, self.or_replace, "OR REPLACE ");
        proof { lemma_concat_step(parts, 1); }
        push_flag(out, self.external, "EXTERNAL ");
        proof { lemma_concat_step(parts, 2); }
        match self.global {
            Some(g) => {
                if g {
                    out.append("GLOBAL ");
                } else {
                    out.append("LOCAL ");
                }
            },
            None => {
                assert(out@ + scope_text(self.global) =~= out@);
            },
        }
        proof { lemma_concat_step(parts, 3); }
        push_flag(out, self.temporary, "TEMPORARY ");
        proof { lemma_concat_step(parts, 4); }
        push_flag(out, self.transient, "TRANSIENT ");
        proof { lemma_concat_step(parts, 5); }
        out.append("TABLE ");
        proof { lemma_concat_step(parts, 6); }
        push_flag(out, self.if_not_exists, "IF NOT EXISTS ");
        proof { lemma_concat_step(parts, 7); }
        out.append(self.name.sql.as_str());
        proof { lemma_concat_step(parts, 8); }
    }

    fn write_body(&self, out: &mut String)
        requires
            old(out)@ == concat(self.clauses().take(9)),
            self.renderable(),
        ensures
            final(out)@ == concat(self.clauses().take(17)),
    {
        let ghost parts = self.clauses();
        self.write_on_cluster(out);
        proof { lemma_concat_step(parts, 9); }
        self.write_column_list(out);
        proof { lemma_concat_step(parts, 10); }
        push_flag(out, self.without_rowid, " WITHOUT ROWID");
        proof { lemma_concat_step(parts, 11); }
        push_opt(out, " LIKE ", &self.like);
        proof { lemma_concat_step(parts, 12); }
        push_opt(out, " CLONE ", &self.clone);
        proof { lemma_concat_step(parts, 13); }
        self.write_distribution(out);
        proof { lemma_concat_step(parts, 14); }
        self.write_hive_formats(out);
        proof { lemma_concat_step(parts, 15); }
        self.write_external(out);
        proof { lemma_concat_step(parts, 16); }
    }

    fn write_tail(&self, out: &mut String)
        requires
            old(out)@ == concat(self.clauses().take(17)),
        ensures
            final(out)@ == concat(self.clauses().take(32)),
    {
        let ghost parts = self.clauses();
        push_list(out, " TBLPROPERTIES (", &self.table_properties, ")");
        proof { lemma_concat_step(parts, 17); }
        push_list(out, " WITH (", &self.with_options, ")");
        proof { lemma_concat_step(parts, 18); }
        push_opt(out, " ENGINE=", &self.engine);
        proof { lemma_concat_step(parts, 19); }
        push_opt_wrapped(out, " COMMENT '", &self.comment, "'");
        proof { lemma_concat_step(parts, 20); }
        self.write_auto_increment(out);
        proof { lemma_concat_step(parts, 21); }
        push_opt_boxed(out, " PRIMARY KEY ", &self.primary_key);
        proof { lemma_concat_step(parts, 22); }
        push_opt(out, " ORDER BY ", &self.order_by);
        proof { lemma_concat_step(parts, 23); }
        push_opt_boxed(out, " PARTITION BY ", &self.partition_by);
        proof { lemma_concat_step(parts, 24); }
        push_opt_list(out, " CLUSTER BY ", &self.cluster_by, "");
        proof { lemma_concat_step(parts, 25); }
        push_opt_list(out, " OPTIONS(", &self.options, ")");
        proof { lemma_concat_step(parts, 26); }
        push_opt_boxed(out, " AS ", &self.query);
        proof { lemma_concat_step(parts, 27); }
        push_opt_string(out, " DEFAULT CHARSET=", &self.default_charset);
        proof { lemma_concat_step(parts, 28); }
        push_opt_string(out, " COLLATE=", &self.collation);
        proof { lemma_concat_step(parts, 29); }
        self.write_on_commit(out);
        proof { lemma_concat_step(parts, 30); }
        push_flag(out, self.strict, " STRICT");
        proof { lemma_concat_step(parts, 31); }
    }

    /// Appends the statement's text to `f`. An external table without a
    /// location is refused before anything is written.
    pub fn fmt(&self, f: &mut String) -> (r: Result<(), RenderError>)
        ensures
            r is Ok <==> self.renderable(),
            r is Ok ==> final(f)@ == old(f)@ + self.spec_sql(),
            r is Err ==> final(f)@ == old(f)@ && r == Err::<(), RenderError>(
                RenderError::MissingLocation,
            ),
    {
        if self.external && self.location.is_none() {
            return Err(RenderError::MissingLocation);
        }
        let mut out = String::new();
        assert(self.clauses().take(0) =~= Seq::<Seq<char>>::empty());
        self.write_head(&mut out);
        self.write_body(&mut out);
        self.write_tail(&mut out);
        assert(self.clauses().take(32) =~= self.clauses());
        f.append(out.as_str());
        Ok(())
    }
}

/// CREATE INDEX statement.
#[derive(Debug, Clone, PartialEq, PartialOrd, Eq, Ord, Hash)]
pub struct CreateIndex {
    /// index name
    pub name: Option<ObjectName>,
    pub table_name: ObjectName,
    pub using: Option<Ident>,
    pub columns: Vec<OrderByExpr>,
    pub unique: bool,
    pub concurrently: bool,
    pub if_not_exists: bool,
    pub included: Vec<Ident>,
    pub nulls_distinct: Option<bool>,
    pub predicate: Option<Expr>,
}

/// The number of clauses of a CREATE INDEX statement.
pub const CREATE_INDEX_CLAUSES: usize = 12;

impl CreateIndex {
    /// Clause `k` of the statement, in the order in which clauses are written.
    pub open spec fn clause(&self, k: int) -> Seq<char> {
        if k == 0 {
            "CREATE "@
        } else if k == 1 {
            flag(self.unique, "UNIQUE "@)
        } else if k == 2 {
            "INDEX "@
        } else if k == 3 {
            flag(self.concurrently, "CONCURRENTLY "@)
        } else if k == 4 {
            flag(self.if_not_exists, "IF NOT EXISTS "@)
        } else if k == 5 {
            opt_wrapped(seq![], frag_text(self.name), " "@)
        } else if k == 6 {
            "ON "@ + self.table_name@
        } else if k == 7 {
            opt_wrapped(" USING "@, frag_text(self.using), " "@)
        } else if k == 8 {
            "("@ + join(texts(self.columns@), ","@) + ")"@
        } else if k == 9 {
            flag(self.included.len() > 0, " INCLUDE ("@ + join(texts(self.included@), ","@) + ")"@)
        } else if k == 10 {
            match self.nulls_distinct {
                Some(d) => if d {
                    " NULLS DISTINCT"@
                } else {
                    " NULLS NOT DISTINCT"@
                },
                None => seq![],
            }
        } else {
            opt_prefixed(" WHERE "@, frag_text(self.predicate))
        }
    }

    /// The clauses of the statement, in order.
    pub open spec fn clauses(&self) -> Seq<Seq<char>> {
        Seq::new(CREATE_INDEX_CLAUSES as nat, |k: int| self.clause(k))
    }

    /// The text of the statement.
    pub open spec fn spec_sql(&self) -> Seq<char> {
        concat(self.clauses())
    }

    fn write_name_and_using(&self, out: &mut String)
        requires
            old(out)@ == concat(self.clauses().take(5)),
        ensures
            final(out)@ == concat(self.clauses().take(8)),
    {
        let ghost parts = self.clauses();
        match &self.name {
            Some(n) => {
                let ghost start = out@;
                out.append(n.sql.as_str());
                out.append(" ");
                assert(out@ =~= start + parts[5]);
            },
            None => {
                assert(out@ + parts[5] =~= out@);
            },
        }
        proof { lemma_concat_step(parts, 5); }
        push_prefixed(out, "ON ", self.table_name.sql.as_str());
        proof { lemma_concat_step(parts, 6); }
        match &self.using {
            Some(u) => push_wrapped(out, " USING ", u.sql.as_str(), " "),
            None => {
                assert(out@ + parts[7] =~= out@);
            },
        }
        proof { lemma_concat_step(parts, 7); }
    }

    fn write_columns(&self, out: &mut String)
        requires
            old(out)@ == concat(self.clauses().take(8)),
        ensures
            final(out)@ == concat(self.clauses().take(12)),
    {
        let ghost parts = self.clauses();
        let cols = display_separated(&self.columns, ",");
        push_wrapped(out, "(", cols.as_str(), ")");
        proof { lemma_concat_step(parts, 8); }
        if self.included.len() > 0 {
            let inc = display_separated(&self.included, ",");
            push_wrapped(out, " INCLUDE (", inc.as_str(), ")");
        } else {
            assert(out@ + parts[9] =~= out@);
        }
        proof { lemma_concat_step(parts, 9); }
        match self.nulls_distinct {
            Some(d) => {
                if d {
                    out.append(" NULLS DISTINCT");
                } else {
                    out.append(" NULLS NOT DISTINCT");
                }
            },
            None => {
                assert(out@ + parts[10] =~= out@);
            },
        }
        proof { lemma_concat_step(parts, 10); }
        push_opt(out, " WHERE ", &self.predicate);
        proof { lemma_concat_step(parts, 11); }
    }

    /// Appends the statement's text to `f`.
    pub fn fmt(&self, f: &mut String)
        ensures
            final(f)@ == old(f)@ + self.spec_sql(),
    {
        let ghost parts = self.clauses();
        let mut out = String::new();
        assert(parts.take(0) =~= Seq::<Seq<char>>::empty());
        out.append("CREATE ");
        proof { lemma_concat_step(parts, 0); }
        push_flag(&mut out, self.unique, "UNIQUE ");
        proof { lemma_concat_step(parts, 1); }
        out.append("INDEX ");
        proof { lemma_concat_step(parts, 2); }
        push_flag(&mut out, self.concurrently, "CONCURRENTLY ");
        proof { lemma_concat_step(parts, 3); }
        push_flag(&mut out, self.if_not_exists, "IF NOT EXISTS ");
        proof { lemma_concat_step(parts, 4); }
        self.write_name_and_using(&mut out);
        self.write_columns(&mut out);
        assert(parts.take(12) =~= parts);
        f.append(out.as_str());
    }
}

/// INSERT statement.
#[derive(Debug, Clone, PartialEq, PartialOrd, Eq, Ord, Hash)]
pub struct Insert {
    /// Only for Sqlite
    pub or: Option<SqliteOnConflict>,
    /// Only for mysql
    pub ignore: bool,
    /// INTO - optional keyword
    pub into: bool,
    /// TABLE
    pub table_name: ObjectName,
    /// table_name as foo (for PostgreSQL)
    pub table_alias: Option<Ident>,
    /// COLUMNS
    pub columns: Vec<Ident>,
    /// Overwrite (Hive)
    pub overwrite: bool,
    /// A SQL query that specifies what to insert
    pub source: Option<Box<Query>>,
    /// partitioned insert (Hive)
    pub partitioned: Option<Vec<Expr>>,
    /// Columns defined after PARTITION
    pub after_columns: Vec<Ident>,
    /// whether the insert has the table keyword (Hive)
    pub table: bool,
    pub on: Option<OnInsert>,
    /// RETURNING
    pub returning: Option<Vec<SelectItem>>,
    /// Only for mysql
    pub replace_into: bool,
    /// Only for mysql
    pub priority: Option<MysqlInsertPriority>,
    /// Only for mysql
    pub insert_alias: Option<InsertAliases>,
}

/// The number of clauses of an INSERT statement.
pub const INSERT_CLAUSES: usize = 18;

impl Insert {
    /// Whether MySQL's and Hive's modifiers are written: SQLite's conflict
    /// clause stands right after INSERT and excludes them.
    pub open spec fn plain(&self) -> bool {
        self.or is None
    }

    /// Clause `k` of the statement, in the order in which clauses are written.
    pub open spec fn clause(&self, k: int) -> Seq<char> {
        if k == 0 {
            match self.or {
                Some(action) => "INSERT OR "@ + action.spec_keyword() + " INTO "@,
                None => if self.replace_into {
                    "REPLACE"@
                } else {
                    "INSERT"@
                },
            }
        } else if k == 1 {
            flag(self.plain(), priority_text(self.priority))
        } else if k == 2 {
            flag(self.plain() && self.ignore, " IGNORE"@)
        } else if k == 3 {
            flag(self.plain() && self.overwrite, " OVERWRITE"@)
        } else if k == 4 {
            flag(self.plain() && self.into, " INTO"@)
        } else if k == 5 {
            flag(self.plain() && self.table, " TABLE"@)
        } else if k == 6 {
            flag(self.plain(), " "@)
        } else if k == 7 {
            self.table_name@
        } else if k == 8 {
            opt_prefixed(" AS "@, frag_text(self.table_alias))
        } else if k == 9 {
            " "@
        } else if k == 10 {
            nonempty_list("("@, self.columns@, ") "@)
        } else if k == 11 {
            match self.partitioned {
                Some(p) => nonempty_list("PARTITION ("@, p@, ") "@),
                None => seq![],
            }
        } else if k == 12 {
            nonempty_list("("@, self.after_columns@, ") "@)
        } else if k == 13 {
            match self.source {
                Some(q) => q.sql@,
                None => seq![],
            }
        } else if k == 14 {
            flag(self.source is None && self.columns.len() == 0, "DEFAULT VALUES"@)
        } else if k == 15 {
            match self.insert_alias {
                Some(a) => " AS "@ + a.row_alias@ + match a.col_aliases {
                    Some(c) => nonempty_list(" ("@, c@, ")"@),
                    None => seq![],
                },
                None => seq![],
            }
        } else if k == 16 {
            opt_prefixed(seq![], frag_text(self.on))
        } else {
            opt_list(" RETURNING "@, self.returning, ""@)
        }
    }

    /// The clauses of the statement, in order.
    pub open spec fn clauses(&self) -> Seq<Seq<char>> {
        Seq::new(INSERT_CLAUSES as nat, |k: int| self.clause(k))
    }

    /// The text of the statement.
    pub open spec fn spec_sql(&self) -> Seq<char> {
        concat(self.clauses())
    }

    fn write_head(&self, out: &mut String)
        requires
            old(out)@ == concat(self.clauses().take(0)),
        ensures
            final(out)@ == concat(self.clauses().take(10)),
    {
        let ghost parts = self.clauses();
        let plain = self.or.is_none();
        match self.or {
            Some(action) => push_wrapped(out, "INSERT OR ", action.keyword(), " INTO "),
            None => {
                if self.replace_into {
                    out.append("REPLACE");
                } else {
                    out.append("INSERT");
                }
            },
        }
        proof { lemma_concat_step(parts, 0); }
        match self.priority {
            Some(p) => {
                if plain {
                    push_prefixed(out, " ", p.keyword());
                } else {
                    assert(out@ + parts[1] =~= out@);
                }
            },
            None => {
                assert(out@ + parts[1] =~= out@);
            },
        }
        proof { lemma_concat_step(parts, 1); }
        push_flag(out, plain && self.ignore, " IGNORE");
        proof { lemma_concat_step(parts, 2); }
        push_flag(out, plain && self.overwrite, " OVERWRITE");
        proof { lemma_concat_step(parts, 3); }
        push_flag(out, plain && self.into, " INTO");
        proof { lemma_concat_step(parts, 4); }
        push_flag(out, plain && self.table, " TABLE");
        proof { lemma_concat_step(parts, 5); }
        push_flag(out, plain, " ");
        proof { lemma_concat_step(parts, 6); }
        out.append(self.table_name.sql.as_str());
        proof { lemma_concat_step(parts, 7); }
        push_opt(out, " AS ", &self.table_alias);
        proof { lemma_concat_step(parts, 8); }
        out.append(" ");
        proof { lemma_concat_step(parts, 9); }
    }

    fn write_rows(&self, out: &mut String)
        requires
            old(out)@ == concat(self.clauses().take(10)),
        ensures
            final(out)@ == concat(self.clauses().take(15)),
    {
        let ghost parts = self.clauses();
        push_list(out, "(", &self.columns, ") ");
        proof { lemma_concat_step(parts, 10); }
        match &self.partitioned {
            Some(p) => push_list(out, "PARTITION (", p, ") "),
            None => {
                assert(out@ + parts[11] =~= out@);
            },
        }
        proof { lemma_concat_step(parts, 11); }
        push_list(out, "(", &self.after_columns, ") ");
        proof { lemma_concat_step(parts, 12); }
        match &self.source {
            Some(q) => out.append(q.sql.as_str()),
            None => {
                assert(out@ + parts[13] =~= out@);
            },
        }
        proof { lemma_concat_step(parts, 13); }
        push_flag(out, self.source.is_none() && self.columns.len() == 0, "DEFAULT VALUES");
        proof { lemma_concat_step(parts, 14); }
    }

    fn write_alias(&self, out: &mut String)
        ensures
            final(out)@ == old(out)@ + self.clause(15),
    {
        let ghost start = out@;
        match &self.insert_alias {
            Some(a) => {
                push_prefixed(out, " AS ", a.row_alias.sql.as_str());
                match &a.col_aliases {
                    Some(c) => push_list(out, " (", c, ")"),
                    None => {},
                }
                assert(out@ =~= start + self.clause(15));
            },
            None => {
                assert(out@ + self.clause(15) =~= out@);
            },
        }
    }

    /// Appends the statement's text to `f`.
    pub fn fmt(&self, f: &mut String)
        ensures
            final(f)@ == old(f)@ + self.spec_sql(),
    {
        let ghost parts = self.clauses();
        let mut out = String::new();
        assert(parts.take(0) =~= Seq::<Seq<char>>::empty());
        self.write_head(&mut out);
        self.write_rows(&mut out);
        self.write_alias(&mut out);
        proof { lemma_concat_step(parts, 15); }
        match &self.on {
            Some(o) => out.append(o.sql.as_str()),
            None => {
                assert(out@ + parts[16] =~= out@);
            },
        }
        proof { lemma_concat_step(parts, 16); }
        push_opt_list(&mut out, " RETURNING ", &self.returning, "");
        proof {
            lemma_concat_step(parts, 17);
            assert(parts.take(18) =~= parts);
        }
        f.append(out.as_str());
    }
}

/// DELETE statement.
#[derive(Debug, Clone, PartialEq, PartialOrd, Eq, Ord, Hash)]
pub struct Delete {
    /// Multi tables delete are supported in mysql
    pub tables: Vec<ObjectName>,
    /// FROM
    pub from: FromTable,
    /// USING (Snowflake, Postgres, MySQL)
    pub using: Option<Vec<TableWithJoins>>,
    /// WHERE
    pub selection: Option<Expr>,
    /// RETURNING
    pub returning: Option<Vec<SelectItem>>,
    /// ORDER BY (MySQL)
    pub order_by: Vec<OrderByExpr>,
    /// LIMIT (MySQL)
    pub limit: Option<Expr>,
}

/// The number of clauses of a DELETE statement.
pub const DELETE_CLAUSES: usize = 8;

impl Delete {
    /// Clause `k` of the statement, in the order in which clauses are written.
    pub open spec fn clause(&self, k: int) -> Seq<char> {
        if k == 0 {
            "DELETE "@
        } else if k == 1 {
            nonempty_list(""@, self.tables@, " "@)
        } else if k == 2 {
            match self.from {
                FromTable::WithFromKeyword(v) => "FROM "@ + comma_joined(v@),
                FromTable::WithoutKeyword(v) => comma_joined(v@),
            }
        } else if k == 3 {
            opt_list(" USING "@, self.using, ""@)
        } else if k == 4 {
            opt_prefixed(" WHERE "@, frag_text(self.selection))
        } else if k == 5 {
            opt_list(" RETURNING "@, self.returning, ""@)
        } else if k == 6 {
            nonempty_list(" ORDER BY "@, self.order_by@, ""@)
        } else {
            opt_prefixed(" LIMIT "@, frag_text(self.limit))
        }
    }

    /// The clauses of the statement, in order.
    pub open spec fn clauses(&self) -> Seq<Seq<char>> {
        Seq::new(DELETE_CLAUSES as nat, |k: int| self.clause(k))
    }

    /// The text of the statement.
    pub open spec fn spec_sql(&self) -> Seq<char> {
        concat(self.clauses())
    }

    /// Appends the statement's text to `f`.
    pub fn fmt(&self, f: &mut String)
        ensures
            final(f)@ == old(f)@ + self.spec_sql(),
    {
        let ghost parts = self.clauses();
        let mut out = String::new();
        assert(parts.take(0) =~= Seq::<Seq<char>>::empty());
        out.append("DELETE ");
        proof { lemma_concat_step(parts, 0); }
        push_list(&mut out, "", &self.tables, " ");
        proof { lemma_concat_step(parts, 1); }
        match &self.from {
            FromTable::WithFromKeyword(v) => {
                let list = display_comma_separated(v);
                push_prefixed(&mut out, "FROM ", list.as_str());
            },
            FromTable::WithoutKeyword(v) => {
                let list = display_comma_separated(v);
                out.append(list.as_str());
            },
        }
        proof { lemma_concat_step(parts, 2); }
        push_opt_list(&mut out, " USING ", &self.using, "");
        proof { lemma_concat_step(parts, 3); }
        push_opt(&mut out, " WHERE ", &self.selection);
        proof { lemma_concat_step(parts, 4); }
        push_opt_list(&mut out, " RETURNING ", &self.returning, "");
        proof { lemma_concat_step(parts, 5); }
        push_list(&mut out, " ORDER BY ", &self.order_by, "");
        proof { lemma_concat_step(parts, 6); }
        push_opt(&mut out, " LIMIT ", &self.limit);
        proof {
            lemma_concat_step(parts, 7);
            assert(parts.take(8) =~= parts);
        }
        f.append(out.as_str());
    }
}

} // verus!
