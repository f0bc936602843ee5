//! The columns that later versions of the store have added, and the
//! statement that adds one where it is missing.

use vstd::prelude::*;
use vstd::string::StringExecFns;
use crate::text::str_eq;

verus! {

/// A column that the store must have: its table, its name and its type.
#[derive(Debug, Clone, Copy, PartialEq, Eq)]
pub struct RequiredColumn {
    pub table: &'static str,
    pub column: &'static str,
    pub column_type: &'static str,
}

/// `name` is among the columns that a table has.
pub open spec fn has_column_named(existing: Seq<String>, name: Seq<char>) -> bool {
    exists|i: int| 0 <= i < existing.len() && (#[trigger] existing[i])@ == name
}

/// The statement that adds a column to a table.
pub open spec fn add_column_statement(
    table: Seq<char>,
    column: Seq<char>,
    column_type: Seq<char>,
) -> Seq<char> {
    "ALTER TABLE "@ + table + " ADD COLUMN "@ + column + " "@ + column_type
}

/// Whether a table has a column, by the names of its columns.
pub fn has_column(existing: &Vec<String>, column: &str) -> (out: bool)
    ensures
        out == has_column_named(existing@, column@),
{
    let mut i: usize = 0;
    while i < existing.len()
        invariant
            i <= existing.len(),
            forall|k: int| 0 <= k < i ==> (#[trigger] existing@[k])@ != column@,
        decreases existing.len() - i,
    {
        if str_eq(existing[i].as_str(), column) {
            return true;
        }
        i += 1;
    }
    false
}

/// The statement to run so that a table has a column: none where the table
/// has it already.
pub fn ensure_column(existing: &Vec<String>, table: &str, column: &str, column_type: &str) -> (out:
    Option<String>)
    ensures
        match out {
            Some(sql) => !has_column_named(existing@, column@) && sql@ == add_column_statement(
                table@,
                column@,
                column_type@,
            ),
            None => has_column_named(existing@, column@),
        },
{
    if has_column(existing, column) {
        return None;
    }
    let mut sql = "ALTER TABLE ".to_string();
    sql.append(table);
    sql.append(" ADD COLUMN ");
    sql.append(column);
    sql.append(" ");
    sql.append(column_type);
    Some(sql)
}

/// Once a column has been added, nothing is left to run for it: the
/// migration can be repeated without harm.
pub proof fn lemma_added_column_needs_no_statement(existing: Seq<String>, added: String)
    ensures
        has_column_named(existing.push(added), added@),
{
    assert(existing.push(added)[existing.len() as int] == added);
}

/// The texts of a required column.
pub open spec fn column_view(column: RequiredColumn) -> (Seq<char>, Seq<char>, Seq<char>) {
    (column.table@, column.column@, column.column_type@)
}

/// The columns that the store has gained since its first version, in the
/// order in which they are looked after.
pub open spec fn required_column_views() -> Seq<(Seq<char>, Seq<char>, Seq<char>)> {
    seq![
        ("accounts"@, "chatgpt_account_id"@, "TEXT"@),
        ("accounts"@, "note"@, "TEXT"@),
        ("accounts"@, "tags"@, "TEXT"@),
        ("accounts"@, "group_name"@, "TEXT"@),
        ("accounts"@, "workspace_name"@, "TEXT"@),
        ("accounts"@, "sort"@, "INTEGER DEFAULT 0"@),
        ("login_sessions"@, "note"@, "TEXT"@),
        ("login_sessions"@, "tags"@, "TEXT"@),
        ("login_sessions"@, "group_name"@, "TEXT"@),
        ("usage_snapshots"@, "secondary_used_percent"@, "REAL"@),
        ("usage_snapshots"@, "secondary_window_minutes"@, "INTEGER"@),
        ("usage_snapshots"@, "secondary_resets_at"@, "INTEGER"@),
        ("tokens"@, "api_key_access_token"@, "TEXT"@),
    ]
}

/// The columns that the store has gained since its first version.
pub fn required_columns() -> (out: Vec<RequiredColumn>)
    ensures
        out@.map_values(|column: RequiredColumn| column_view(column)) == required_column_views(),
{
    let mut out: Vec<RequiredColumn> = Vec::new();
    out.push(RequiredColumn { table: "accounts", column: "chatgpt_account_id", column_type: "TEXT" });
    out.push(RequiredColumn { table: "accounts", column: "note", column_type: "TEXT" });
    out.push(RequiredColumn { table: "accounts", column: "tags", column_type: "TEXT" });
    out.push(RequiredColumn { table: "accounts", column: "group_name", column_type: "TEXT" });
    out.push(RequiredColumn { table: "accounts", column: "workspace_name", column_type: "TEXT" });
    out.push(RequiredColumn { table: "accounts", column: "sort", column_type: "INTEGER DEFAULT 0" });
    out.push(RequiredColumn { table: "login_sessions", column: "note", column_type: "TEXT" });
    out.push(RequiredColumn { table: "login_sessions", column: "tags", column_type: "TEXT" });
    out.push(RequiredColumn { table: "login_sessions", column: "group_name", column_type: "TEXT" });
    out.push(RequiredColumn { table: "usage_snapshots", column: "secondary_used_percent", column_type: "REAL" });
    out.push(RequiredColumn { table: "usage_snapshots", column: "secondary_window_minutes", column_type: "INTEGER" });
    out.push(RequiredColumn { table: "usage_snapshots", column: "secondary_resets_at", column_type: "INTEGER" });
    out.push(RequiredColumn { table: "tokens", column: "api_key_access_token", column_type: "TEXT" });
    assert(out@.map_values(|column: RequiredColumn| column_view(column))
        =~= required_column_views());
    out
}

} // verus!
