//! The nodes that statements are built from. Expressions, queries, names
//! and the like are carried as already rendered SQL fragments; the small
//! closed vocabularies (file formats, Hive storage shapes, conflict modes)
//! are enums whose keywords are fixed here.
use vstd::prelude::*;

use crate::text::{flag, join, push_prefixed, push_wrapped};

verus! {

/// A piece of SQL that is already rendered and escaped: an expression, a
/// query, a name, a column definition and so on. It is written out as it is.
#[derive(Debug, Clone, PartialEq, Eq, PartialOrd, Ord, Hash)]
pub struct Fragment {
    pub sql: String,
}

impl View for Fragment {
    type V = Seq<char>;

    open spec fn view(&self) -> Seq<char> {
        self.sql@
    }
}

impl Fragment {
    /// A fragment holding `sql`.
    pub fn new(sql: String) -> (r: Fragment)
        ensures
            r@ == sql@,
    {
        Fragment { sql }
    }
}

/// A possibly qualified object name, such as `db.t`.
pub type ObjectName = Fragment;

/// An identifier.
pub type Ident = Fragment;

/// An expression.
pub type Expr = Fragment;

/// A query (`SELECT ...`).
pub type Query = Fragment;

/// A column definition of a table.
pub type ColumnDef = Fragment;

/// A table-level constraint.
pub type TableConstraint = Fragment;

/// A `key = value` option.
pub type SqlOption = Fragment;

/// An expression with its sort order.
pub type OrderByExpr = Fragment;

/// One item of a projection list.
pub type SelectItem = Fragment;

/// A table together with its joins.
pub type TableWithJoins = Fragment;

/// A table engine with its parameters (`MergeTree()`).
pub type TableEngine = Fragment;

/// One delimiter of a Hive `ROW FORMAT DELIMITED` clause.
pub type HiveRowDelimiter = Fragment;

/// One expression, or several in parentheses.
pub type OneOrManyWithParens = Fragment;

/// A conflict clause of an INSERT, written with its own leading space
/// (` ON CONFLICT ...`, ` ON DUPLICATE KEY UPDATE ...`).
pub type OnInsert = Fragment;

/// The texts of a list of fragments.
pub open spec fn texts(items: Seq<Fragment>) -> Seq<Seq<char>> {
    items.map_values(|f: Fragment| f@)
}

/// A list of fragments written as `a, b, c`.
pub open spec fn comma_joined(items: Seq<Fragment>) -> Seq<char> {
    join(texts(items), ", "@)
}

/// Writes the fragments in `items` with `sep` between neighbours; an empty
/// list gives empty text.
pub fn display_separated(items: &Vec<Fragment>, sep: &str) -> (r: String)
    ensures
        r@ == join(texts(items@), sep@),
{
    let ghost parts = texts(items@);
    let mut out = String::new();
    let mut i: usize = 0;
    while i < items.len()
        invariant
            i <= items.len(),
            parts == texts(items@),
            out@ == join(parts.take(i as int), sep@),
        decreases items.len() - i,
    {
        if i > 0 {
            out.append(sep);
        }
        out.append(items[i].sql.as_str());
        proof {
            assert(parts.take(i + 1).drop_last() =~= parts.take(i as int));
            if i == 0 {
                assert(out@ =~= parts.take(1)[0]);
            }
        }
        i += 1;
    }
    assert(parts.take(items.len() as int) =~= parts);
    out
}

/// Writes the fragments in `items` as `a, b, c`.
pub fn display_comma_separated(items: &Vec<Fragment>) -> (r: String)
    ensures
        r@ == comma_joined(items@),
{
    display_separated(items, ", ")
}

/// Storage file formats.
#[derive(Debug, Clone, Copy, PartialEq, Eq, PartialOrd, Ord, Hash)]
pub enum FileFormat {
    TEXTFILE,
    SEQUENCEFILE,
    ORC,
    PARQUET,
    AVRO,
    RCFILE,
    JSONFILE,
}

impl FileFormat {
    /// The keyword of the format.
    pub open spec fn spec_keyword(self) -> Seq<char> {
        match self {
            FileFormat::TEXTFILE => "TEXTFILE"@,
            FileFormat::SEQUENCEFILE => "SEQUENCEFILE"@,
            FileFormat::ORC => "ORC"@,
            FileFormat::PARQUET => "PARQUET"@,
            FileFormat::AVRO => "AVRO"@,
            FileFormat::RCFILE => "RCFILE"@,
            FileFormat::JSONFILE => "JSONFILE"@,
        }
    }

    pub fn keyword(self) -> (r: &'static str)
        ensures
            r@ == self.spec_keyword(),
    {
        match self {
            FileFormat::TEXTFILE => "TEXTFILE",
            FileFormat::SEQUENCEFILE => "SEQUENCEFILE",
            FileFormat::ORC => "ORC",
            FileFormat::PARQUET => "PARQUET",
            FileFormat::AVRO => "AVRO",
            FileFormat::RCFILE => "RCFILE",
            FileFormat::JSONFILE => "JSONFILE",
        }
    }
}

/// What happens to a temporary table's rows at commit.
#[derive(Debug, Clone, Copy, PartialEq, Eq, PartialOrd, Ord, Hash)]
pub enum OnCommit {
    DeleteRows,
    PreserveRows,
    Drop,
}

impl OnCommit {
    /// The phrase of the behaviour.
    pub open spec fn spec_phrase(self) -> Seq<char> {
        match self {
            OnCommit::DeleteRows => "ON COMMIT DELETE ROWS"@,
            OnCommit::PreserveRows => "ON COMMIT PRESERVE ROWS"@,
            OnCommit::Drop => "ON COMMIT DROP"@,
        }
    }

    pub fn phrase(self) -> (r: &'static str)
        ensures
            r@ == self.spec_phrase(),
    {
        match self {
            OnCommit::DeleteRows => "ON COMMIT DELETE ROWS",
            OnCommit::PreserveRows => "ON COMMIT PRESERVE ROWS",
            OnCommit::Drop => "ON COMMIT DROP",
        }
    }
}

/// How a Hive table is distributed.
#[derive(Debug, Clone, PartialEq, Eq, PartialOrd, Ord, Hash)]
pub enum HiveDistributionStyle {
    PARTITIONED { columns: Vec<ColumnDef> },
    CLUSTERED { columns: Vec<Ident>, sorted_by: Vec<ColumnDef>, num_buckets: i32 },
    SKEWED { columns: Vec<ColumnDef>, on: Vec<ColumnDef>, stored_as_directories: bool },
    NONE,
}

/// A Hive row format.
#[derive(Debug, Clone, PartialEq, Eq, PartialOrd, Ord, Hash)]
pub enum HiveRowFormat {
    SERDE { class: String },
    DELIMITED { delimiters: Vec<HiveRowDelimiter> },
}

/// A Hive storage format.
#[derive(Debug, Clone, PartialEq, Eq, PartialOrd, Ord, Hash)]
pub enum HiveIOFormat {
    IOF { input_format: Expr, output_format: Expr },
    FileFormat { format: FileFormat },
}

/// The Hive storage block of a table.
#[derive(Debug, Clone, PartialEq, Eq, PartialOrd, Ord, Hash)]
pub struct HiveFormat {
    pub row_format: Option<HiveRowFormat>,
    pub serde_properties: Option<Vec<SqlOption>>,
    pub storage: Option<HiveIOFormat>,
    pub location: Option<String>,
}

/// The tables a DELETE reads from, with or without the `FROM` keyword.
#[derive(Debug, Clone, PartialEq, Eq, PartialOrd, Ord, Hash)]
pub enum FromTable {
    WithFromKeyword(Vec<TableWithJoins>),
    WithoutKeyword(Vec<TableWithJoins>),
}

/// SQLite's conflict resolution for an INSERT.
#[derive(Debug, Clone, Copy, PartialEq, Eq, PartialOrd, Ord, Hash)]
pub enum SqliteOnConflict {
    Rollback,
    Abort,
    Fail,
    Ignore,
    Replace,
}

impl SqliteOnConflict {
    pub open spec fn spec_keyword(self) -> Seq<char> {
        match self {
            SqliteOnConflict::Rollback => "ROLLBACK"@,
            SqliteOnConflict::Abort => "ABORT"@,
            SqliteOnConflict::Fail => "FAIL"@,
            SqliteOnConflict::Ignore => "IGNORE"@,
            SqliteOnConflict::Replace => "REPLACE"@,
        }
    }

    pub fn keyword(self) -> (r: &'static str)
        ensures
            r@ == self.spec_keyword(),
    {
        match self {
            SqliteOnConflict::Rollback => "ROLLBACK",
            SqliteOnConflict::Abort => "ABORT",
            SqliteOnConflict::Fail => "FAIL",
            SqliteOnConflict::Ignore => "IGNORE",
            SqliteOnConflict::Replace => "REPLACE",
        }
    }
}

/// MySQL's priority modifier of an INSERT.
#[derive(Debug, Clone, Copy, PartialEq, Eq, PartialOrd, Ord, Hash)]
pub enum MysqlInsertPriority {
    LowPriority,
    Delayed,
    HighPriority,
}

impl MysqlInsertPriority {
    pub open spec fn spec_keyword(self) -> Seq<char> {
        match self {
            MysqlInsertPriority::LowPriority => "LOW_PRIORITY"@,
            MysqlInsertPriority::Delayed => "DELAYED"@,
            MysqlInsertPriority::HighPriority => "HIGH_PRIORITY"@,
        }
    }

    pub fn keyword(self) -> (r: &'static str)
        ensures
            r@ == self.spec_keyword(),
    {
        match self {
            MysqlInsertPriority::LowPriority => "LOW_PRIORITY",
            MysqlInsertPriority::Delayed => "DELAYED",
            MysqlInsertPriority::HighPriority => "HIGH_PRIORITY",
        }
    }
}

/// MySQL's priority modifier, with its leading space, when there is one.
pub open spec fn priority_text(p: Option<MysqlInsertPriority>) -> Seq<char> {
    match p {
        Some(p) => " "@ + p.spec_keyword(),
        None => seq![],
    }
}

/// MySQL's row alias of an INSERT, with optional column aliases.
#[derive(Debug, Clone, PartialEq, Eq, PartialOrd, Ord, Hash)]
pub struct InsertAliases {
    pub row_alias: ObjectName,
    pub col_aliases: Option<Vec<Ident>>,
}

/// `GLOBAL ` or `LOCAL ` for the three-valued scope of a table.
pub open spec fn scope_text(global: Option<bool>) -> Seq<char> {
    match global {
        Some(g) => if g {
            "GLOBAL "@
        } else {
            "LOCAL "@
        },
        None => seq![],
    }
}

/// `pre` and the text of `o` when it is present, else nothing.
pub open spec fn opt_prefixed(pre: Seq<char>, o: Option<Seq<char>>) -> Seq<char> {
    match o {
        Some(t) => pre + t,
        None => seq![],
    }
}

/// `pre`, the text of `o` and `post` when it is present, else nothing.
pub open spec fn opt_wrapped(pre: Seq<char>, o: Option<Seq<char>>, post: Seq<char>) -> Seq<char> {
    match o {
        Some(t) => pre + t + post,
        None => seq![],
    }
}

/// `pre`, the comma-joined list and `post` when the list is not empty.
pub open spec fn nonempty_list(pre: Seq<char>, items: Seq<Fragment>, post: Seq<char>) -> Seq<char> {
    flag(items.len() > 0, pre + comma_joined(items) + post)
}

/// The text of an optional fragment.
pub open spec fn frag_text(o: Option<Fragment>) -> Option<Seq<char>> {
    match o {
        Some(f) => Some(f@),
        None => None,
    }
}

/// The text of an optional boxed fragment.
pub open spec fn boxed_text(o: Option<Box<Fragment>>) -> Option<Seq<char>> {
    match o {
        Some(f) => Some(f.sql@),
        None => None,
    }
}

/// The text of an optional string.
pub open spec fn string_text(o: Option<String>) -> Option<Seq<char>> {
    match o {
        Some(s) => Some(s@),
        None => None,
    }
}

/// Appends `pre` and the fragment, when there is one.
pub fn push_opt(out: &mut String, pre: &str, o: &Option<Fragment>)
    ensures
        final(out)@ == old(out)@ + opt_prefixed(pre@, frag_text(*o)),
{
    match o {
        Some(f) => push_prefixed(out, pre, f.sql.as_str()),
        None => {
            assert(out@ + opt_prefixed(pre@, frag_text(*o)) =~= out@);
        },
    }
}

/// Appends `pre` and the boxed fragment, when there is one.
pub fn push_opt_boxed(out: &mut String, pre: &str, o: &Option<Box<Fragment>>)
    ensures
        final(out)@ == old(out)@ + opt_prefixed(pre@, boxed_text(*o)),
{
    match o {
        Some(f) => push_prefixed(out, pre, f.sql.as_str()),
        None => {
            assert(out@ + opt_prefixed(pre@, boxed_text(*o)) =~= out@);
        },
    }
}

/// Appends `pre`, the string and `post`, when there is a string.
pub fn push_opt_wrapped(out: &mut String, pre: &str, o: &Option<String>, post: &str)
    ensures
        final(out)@ == old(out)@ + opt_wrapped(pre@, string_text(*o), post@),
{
    match o {
        Some(s) => push_wrapped(out, pre, s.as_str(), post),
        None => {
            assert(out@ + opt_wrapped(pre@, string_text(*o), post@) =~= out@);
        },
    }
}

/// Appends `pre`, the comma-joined list and `post`, when the list is not empty.
pub fn push_list(out: &mut String, pre: &str, items: &Vec<Fragment>, post: &str)
    ensures
        final(out)@ == old(out)@ + nonempty_list(pre@, items@, post@),
{
    if items.len() > 0 {
        let list = display_comma_separated(items);
        push_wrapped(out, pre, list.as_str(), post);
    } else {
        assert(out@ + nonempty_list(pre@, items@, post@) =~= out@);
    }
}

/// `pre`, the comma-joined list and `post`, when the list is present.
pub open spec fn opt_list(pre: Seq<char>, o: Option<Vec<Fragment>>, post: Seq<char>) -> Seq<char> {
    match o {
        Some(v) => pre + comma_joined(v@) + post,
        None => seq![],
    }
}

/// Appends `pre`, the comma-joined list and `post`, when the list is present.
pub fn push_opt_list(out: &mut String, pre: &str, o: &Option<Vec<Fragment>>, post: &str)
    ensures
        final(out)@ == old(out)@ + opt_list(pre@, *o, post@),
{
    match o {
        Some(v) => {
            let list = display_comma_separated(v);
            push_wrapped(out, pre, list.as_str(), post);
        },
        None => {
            assert(out@ + opt_list(pre@, *o, post@) =~= out@);
        },
    }
}

/// Appends `pre` and the string, when there is a string.
pub fn push_opt_string(out: &mut String, pre: &str, o: &Option<String>)
    ensures
        final(out)@ == old(out)@ + opt_prefixed(pre@, string_text(*o)),
{
    match o {
        Some(s) => push_prefixed(out, pre, s.as_str()),
        None => {
            assert(out@ + opt_prefixed(pre@, string_text(*o)) =~= out@);
        },
    }
}

} // verus!
