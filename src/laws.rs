//! Properties of the rendered text that hold for every statement value.
use vstd::prelude::*;

use crate::dml::{
    CreateIndex, CreateTable, Delete, Insert, CREATE_INDEX_CLAUSES, CREATE_TABLE_CLAUSES,
    DELETE_CLAUSES, INSERT_CLAUSES,
};
use crate::ast::HiveDistributionStyle;
use crate::text::{
    concat, escape_braces, lemma_drop_part, lemma_escape_braces, lemma_parts_in_order, offset,
};

verus! {

/// Rendering a CREATE TABLE depends on its value alone: equal statements
/// render to identical text.
pub proof fn law_create_table_deterministic(a: CreateTable, b: CreateTable)
    requires
        a == b,
    ensures
        a.spec_sql() == b.spec_sql(),
{
}

/// Rendering a CREATE INDEX depends on its value alone.
pub proof fn law_create_index_deterministic(a: CreateIndex, b: CreateIndex)
    requires
        a == b,
    ensures
        a.spec_sql() == b.spec_sql(),
{
}

/// Rendering an INSERT depends on its value alone.
pub proof fn law_insert_deterministic(a: Insert, b: Insert)
    requires
        a == b,
    ensures
        a.spec_sql() == b.spec_sql(),
{
}

/// Rendering a DELETE depends on its value alone.
pub proof fn law_delete_deterministic(a: Delete, b: Delete)
    requires
        a == b,
    ensures
        a.spec_sql() == b.spec_sql(),
{
}

/// The clauses of a CREATE TABLE never swap places: for any two clauses
/// `i < j`, clause `i` stands in the text, whole, before clause `j` starts.
pub proof fn law_create_table_clause_order(t: CreateTable, i: int, j: int)
    requires
        0 <= i < j < CREATE_TABLE_CLAUSES,
    ensures
        offset(t.clauses(), i) + t.clause(i).len() <= offset(t.clauses(), j),
        t.spec_sql().subrange(offset(t.clauses(), i), offset(t.clauses(), i) + t.clause(i).len())
            == t.clause(i),
        t.spec_sql().subrange(offset(t.clauses(), j), offset(t.clauses(), j) + t.clause(j).len())
            == t.clause(j),
{
    lemma_parts_in_order(t.clauses(), i, j);
}

impl CreateTable {
    /// `u` is this statement with the optional field behind clause `k` set to
    /// its absent value (false, `None`, empty) and nothing else changed. LIKE,
    /// CLONE and the query count only when the table lists columns or
    /// constraints, since otherwise their absence also brings the bare `()`.
    pub open spec fn suppresses(self, u: CreateTable, k: int) -> bool {
        if k == 1 {
            u == CreateTable { or_replace: false, ..self }
        } else if k == 3 {
            u == CreateTable { global: None, ..self }
        } else if k == 4 {
            u == CreateTable { temporary: false, ..self }
        } else if k == 5 {
            u == CreateTable { transient: false, ..self }
        } else if k == 7 {
            u == CreateTable { if_not_exists: false, ..self }
        } else if k == 9 {
            u == CreateTable { on_cluster: None, ..self }
        } else if k == 11 {
            u == CreateTable { without_rowid: false, ..self }
        } else if k == 12 {
            (self.columns.len() > 0 || self.constraints.len() > 0) && u == CreateTable {
                like: None,
                ..self
            }
        } else if k == 13 {
            (self.columns.len() > 0 || self.constraints.len() > 0) && u == CreateTable {
                clone: None,
                ..self
            }
        } else if k == 14 {
            u == CreateTable { hive_distribution: HiveDistributionStyle::NONE, ..self }
        } else if k == 15 {
            u == CreateTable { hive_formats: None, ..self }
        } else if k == 17 {
            u.table_properties.len() == 0 && u == CreateTable {
                table_properties: u.table_properties,
                ..self
            }
        } else if k == 18 {
            u.with_options.len() == 0 && u == CreateTable { with_options: u.with_options, ..self }
        } else if k == 19 {
            u == CreateTable { engine: None, ..self }
        } else if k == 20 {
            u == CreateTable { comment: None, ..self }
        } else if k == 21 {
            u == CreateTable { auto_increment_offset: None, ..self }
        } else if k == 22 {
            u == CreateTable { primary_key: None, ..self }
        } else if k == 23 {
            u == CreateTable { order_by: None, ..self }
        } else if k == 24 {
            u == CreateTable { partition_by: None, ..self }
        } else if k == 25 {
            u == CreateTable { cluster_by: None, ..self }
        } else if k == 26 {
            u == CreateTable { options: None, ..self }
        } else if k == 27 {
            (self.columns.len() > 0 || self.constraints.len() > 0) && u == CreateTable {
                query: None,
                ..self
            }
        } else if k == 28 {
            u == CreateTable { default_charset: None, ..self }
        } else if k == 29 {
            u == CreateTable { collation: None, ..self }
        } else if k == 30 {
            u == CreateTable { on_commit: None, ..self }
        } else if k == 31 {
            u == CreateTable { strict: false, ..self }
        } else {
            false
        }
    }
}

/// Clearing the field behind clause `k` leaves every other clause as it was.
#[verifier::spinoff_prover]
#[verifier::rlimit(50)]
proof fn lemma_create_table_other_clauses_kept(t: CreateTable, u: CreateTable, k: int, i: int)
    requires
        t.suppresses(u, k),
        0 <= i < CREATE_TABLE_CLAUSES,
        i != k,
    ensures
        t.clause(i) == u.clause(i),
{
    if k == 1 {
        assert(t.clause(i) == u.clause(i));
    } else if k == 3 {
        assert(t.clause(i) == u.clause(i));
    } else if k == 4 {
        assert(t.clause(i) == u.clause(i));
    } else if k == 5 {
        assert(t.clause(i) == u.clause(i));
    } else if k == 7 {
        assert(t.clause(i) == u.clause(i));
    } else if k == 9 {
        assert(t.clause(i) == u.clause(i));
    } else if k == 11 {
        assert(t.clause(i) == u.clause(i));
    } else if k == 12 {
        assert(t.clause(i) == u.clause(i));
    } else if k == 13 {
        assert(t.clause(i) == u.clause(i));
    } else if k == 14 {
        assert(t.clause(i) == u.clause(i));
    } else if k == 15 {
        assert(t.clause(i) == u.clause(i));
    } else if k == 17 {
        assert(t.clause(i) == u.clause(i));
    } else if k == 18 {
        assert(t.clause(i) == u.clause(i));
    } else if k == 19 {
        assert(t.clause(i) == u.clause(i));
    } else if k == 20 {
        assert(t.clause(i) == u.clause(i));
    } else if k == 21 {
        assert(t.clause(i) == u.clause(i));
    } else if k == 22 {
        assert(t.clause(i) == u.clause(i));
    } else if k == 23 {
        assert(t.clause(i) == u.clause(i));
    } else if k == 24 {
        assert(t.clause(i) == u.clause(i));
    } else if k == 25 {
        assert(t.clause(i) == u.clause(i));
    } else if k == 26 {
        assert(t.clause(i) == u.clause(i));
    } else if k == 27 {
        assert(t.clause(i) == u.clause(i));
    } else if k == 28 {
        assert(t.clause(i) == u.clause(i));
    } else if k == 29 {
        assert(t.clause(i) == u.clause(i));
    } else if k == 30 {
        assert(t.clause(i) == u.clause(i));
    } else if k == 31 {
        assert(t.clause(i) == u.clause(i));
    }
}

/// Setting an optional field of a CREATE TABLE to its absent value removes
/// exactly that field's clause from the text: what stands before and after
/// it is unchanged.
pub proof fn law_create_table_suppression(t: CreateTable, u: CreateTable, k: int)
    requires
        t.suppresses(u, k),
    ensures
        t.spec_sql() == concat(t.clauses().take(k)) + t.clause(k) + concat(
            t.clauses().skip(k + 1),
        ),
        u.spec_sql() == concat(t.clauses().take(k)) + concat(t.clauses().skip(k + 1)),
{
    let a = t.clauses();
    let b = u.clauses();
    assert(b[k] =~= Seq::<char>::empty());
    assert forall|i: int| 0 <= i < a.len() && i != k implies a[i] == b[i] by {
        lemma_create_table_other_clauses_kept(t, u, k, i);
    }
    lemma_drop_part(a, b, k);
}

impl CreateIndex {
    /// `u` is this statement with the optional field behind clause `k` set to
    /// its absent value (false, `None`, empty) and nothing else changed.
    pub open spec fn suppresses(self, u: CreateIndex, k: int) -> bool {
        if k == 1 {
            u == CreateIndex { unique: false, ..self }
        } else if k == 3 {
            u == CreateIndex { concurrently: false, ..self }
        } else if k == 4 {
            u == CreateIndex { if_not_exists: false, ..self }
        } else if k == 5 {
            u == CreateIndex { name: None, ..self }
        } else if k == 7 {
            u == CreateIndex { using: None, ..self }
        } else if k == 9 {
            u.included.len() == 0 && u == CreateIndex { included: u.included, ..self }
        } else if k == 10 {
            u == CreateIndex { nulls_distinct: None, ..self }
        } else if k == 11 {
            u == CreateIndex { predicate: None, ..self }
        } else {
            false
        }
    }
}

/// Clearing the field behind clause `k` of a CREATE INDEX leaves every other clause
/// as it was.
#[verifier::spinoff_prover]
proof fn lemma_create_index_other_clauses_kept(t: CreateIndex, u: CreateIndex, k: int, i: int)
    requires
        t.suppresses(u, k),
        0 <= i < CREATE_INDEX_CLAUSES,
        i != k,
    ensures
        t.clause(i) == u.clause(i),
{
    if k == 1 {
        assert(t.clause(i) == u.clause(i));
    } else if k == 3 {
        assert(t.clause(i) == u.clause(i));
    } else if k == 4 {
        assert(t.clause(i) == u.clause(i));
    } else if k == 5 {
        assert(t.clause(i) == u.clause(i));
    } else if k == 7 {
        assert(t.clause(i) == u.clause(i));
    } else if k == 9 {
        assert(t.clause(i) == u.clause(i));
    } else if k == 10 {
        assert(t.clause(i) == u.clause(i));
    } else if k == 11 {
        assert(t.clause(i) == u.clause(i));
    }
}

/// Setting an optional field of a CREATE INDEX to its absent value removes exactly
/// that field's clause from the text: what stands before and after it is unchanged.
pub proof fn law_create_index_suppression(t: CreateIndex, u: CreateIndex, k: int)
    requires
        t.suppresses(u, k),
    ensures
        t.spec_sql() == concat(t.clauses().take(k)) + t.clause(k) + concat(
            t.clauses().skip(k + 1),
        ),
        u.spec_sql() == concat(t.clauses().take(k)) + concat(t.clauses().skip(k + 1)),
{
    let a = t.clauses();
    let b = u.clauses();
    assert(b[k] =~= Seq::<char>::empty());
    assert forall|i: int| 0 <= i < a.len() && i != k implies a[i] == b[i] by {
        lemma_create_index_other_clauses_kept(t, u, k, i);
    }
    lemma_drop_part(a, b, k);
}

impl Delete {
    /// `u` is this statement with the optional field behind clause `k` set to
    /// its absent value (false, `None`, empty) and nothing else changed.
    pub open spec fn suppresses(self, u: Delete, k: int) -> bool {
        if k == 1 {
            u.tables.len() == 0 && u == Delete { tables: u.tables, ..self }
        } else if k == 3 {
            u == Delete { using: None, ..self }
        } else if k == 4 {
            u == Delete { selection: None, ..self }
        } else if k == 5 {
            u == Delete { returning: None, ..self }
        } else if k == 6 {
            u.order_by.len() == 0 && u == Delete { order_by: u.order_by, ..self }
        } else if k == 7 {
            u == Delete { limit: None, ..self }
        } else {
            false
        }
    }
}

/// Clearing the field behind clause `k` of a DELETE leaves every other clause
/// as it was.
#[verifier::spinoff_prover]
proof fn lemma_delete_other_clauses_kept(t: Delete, u: Delete, k: int, i: int)
    requires
        t.suppresses(u, k),
        0 <= i < DELETE_CLAUSES,
        i != k,
    ensures
        t.clause(i) == u.clause(i),
{
    if k == 1 {
        assert(t.clause(i) == u.clause(i));
    } else if k == 3 {
        assert(t.clause(i) == u.clause(i));
    } else if k == 4 {
        assert(t.clause(i) == u.clause(i));
    } else if k == 5 {
        assert(t.clause(i) == u.clause(i));
    } else if k == 6 {
        assert(t.clause(i) == u.clause(i));
    } else if k == 7 {
        assert(t.clause(i) == u.clause(i));
    }
}

/// Setting an optional field of a DELETE to its absent value removes exactly
/// that field's clause from the text: what stands before and after it is unchanged.
pub proof fn law_delete_suppression(t: Delete, u: Delete, k: int)
    requires
        t.suppresses(u, k),
    ensures
        t.spec_sql() == concat(t.clauses().take(k)) + t.clause(k) + concat(
            t.clauses().skip(k + 1),
        ),
        u.spec_sql() == concat(t.clauses().take(k)) + concat(t.clauses().skip(k + 1)),
{
    let a = t.clauses();
    let b = u.clauses();
    assert(b[k] =~= Seq::<char>::empty());
    assert forall|i: int| 0 <= i < a.len() && i != k implies a[i] == b[i] by {
        lemma_delete_other_clauses_kept(t, u, k, i);
    }
    lemma_drop_part(a, b, k);
}

impl Insert {
    /// `u` is this statement with the optional field behind clause `k` set to
    /// its absent value (false, `None`, empty) and nothing else changed.
    /// The modifiers count only without SQLite's conflict clause, which excludes them.
    pub open spec fn suppresses(self, u: Insert, k: int) -> bool {
        if k == 1 {
            u == Insert { priority: None, ..self }
        } else if k == 2 {
            u == Insert { ignore: false, ..self }
        } else if k == 3 {
            u == Insert { overwrite: false, ..self }
        } else if k == 4 {
            u == Insert { into: false, ..self }
        } else if k == 5 {
            u == Insert { table: false, ..self }
        } else if k == 8 {
            u == Insert { table_alias: None, ..self }
        } else if k == 11 {
            u == Insert { partitioned: None, ..self }
        } else if k == 12 {
            u.after_columns.len() == 0 && u == Insert { after_columns: u.after_columns, ..self }
        } else if k == 15 {
            u == Insert { insert_alias: None, ..self }
        } else if k == 16 {
            u == Insert { on: None, ..self }
        } else if k == 17 {
            u == Insert { returning: None, ..self }
        } else {
            false
        }
    }
}

/// Clearing the field behind clause `k` of an INSERT leaves every other clause
/// as it was.
#[verifier::spinoff_prover]
proof fn lemma_insert_other_clauses_kept(t: Insert, u: Insert, k: int, i: int)
    requires
        t.suppresses(u, k),
        0 <= i < INSERT_CLAUSES,
        i != k,
    ensures
        t.clause(i) == u.clause(i),
{
    if k == 1 {
        assert(t.clause(i) == u.clause(i));
    } else if k == 2 {
        assert(t.clause(i) == u.clause(i));
    } else if k == 3 {
        assert(t.clause(i) == u.clause(i));
    } else if k == 4 {
        assert(t.clause(i) == u.clause(i));
    } else if k == 5 {
        assert(t.clause(i) == u.clause(i));
    } else if k == 8 {
        assert(t.clause(i) == u.clause(i));
    } else if k == 11 {
        assert(t.clause(i) == u.clause(i));
    } else if k == 12 {
        assert(t.clause(i) == u.clause(i));
    } else if k == 15 {
        assert(t.clause(i) == u.clause(i));
    } else if k == 16 {
        assert(t.clause(i) == u.clause(i));
    } else if k == 17 {
        assert(t.clause(i) == u.clause(i));
    }
}

/// Setting an optional field of an INSERT to its absent value removes exactly
/// that field's clause from the text: what stands before and after it is unchanged.
pub proof fn law_insert_suppression(t: Insert, u: Insert, k: int)
    requires
        t.suppresses(u, k),
    ensures
        t.spec_sql() == concat(t.clauses().take(k)) + t.clause(k) + concat(
            t.clauses().skip(k + 1),
        ),
        u.spec_sql() == concat(t.clauses().take(k)) + concat(t.clauses().skip(k + 1)),
{
    let a = t.clauses();
    let b = u.clauses();
    assert(b[k] =~= Seq::<char>::empty());
    assert forall|i: int| 0 <= i < a.len() && i != k implies a[i] == b[i] by {
        lemma_insert_other_clauses_kept(t, u, k, i);
    }
    lemma_drop_part(a, b, k);
}

/// An ON CLUSTER clause writes the cluster name escaped: a name without
/// braces stands as it is, every `{` gets a quote before it and every `}` a
/// quote after it.
pub proof fn law_on_cluster_escaping(t: CreateTable)
    requires
        t.on_cluster is Some,
    ensures
        ({
            let name = t.on_cluster->0@;
            let e = escape_braces(name);
            &&& t.clause(9) == " ON CLUSTER "@ + e
            &&& (forall|i: int| 0 <= i < name.len() ==> name[i] != '{' && name[i] != '}') ==> e
                == name
            &&& forall|j: int|
                0 <= j < e.len() && #[trigger] e[j] == '{' ==> j > 0 && e[j - 1] == '\''
            &&& forall|j: int|
                0 <= j < e.len() && #[trigger] e[j] == '}' ==> j + 1 < e.len() && e[j + 1] == '\''
        }),
{
    lemma_escape_braces(t.on_cluster->0@);
}

} // verus!
