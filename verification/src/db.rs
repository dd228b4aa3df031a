//! Checks on the SQLite `metrics` table and accounting of batch inserts.
//!
//! The program reads the table schema with `PRAGMA table_info(metrics)` and
//! executes the inserts; this module decides whether the schema is usable and
//! how each insert outcome is counted.

use vstd::prelude::*;

use crate::model::{CleanRecord, PreparedRecord, RecordContext};
use crate::text::{chars_equal, to_uppercase, uppercase_chars};

verus! {

/// One row of `PRAGMA table_info(metrics)`, as the schema check reads it.
#[derive(Debug, PartialEq)]
pub struct TableColumn {
    /// Column name.
    pub name: String,
    /// Declared column type, uppercased.
    pub column_type: String,
    /// Whether the column is declared `NOT NULL`.
    pub not_null: bool,
    /// Whether the column has a default value.
    pub has_default: bool,
    /// Whether the column is part of the primary key.
    pub primary_key: bool,
}

/// The mathematical content of a [`TableColumn`].
pub struct ColumnView {
    pub name: Seq<char>,
    pub column_type: Seq<char>,
    pub not_null: bool,
    pub has_default: bool,
    pub primary_key: bool,
}

impl View for TableColumn {
    type V = ColumnView;

    open spec fn view(&self) -> ColumnView {
        ColumnView {
            name: self.name@,
            column_type: self.column_type@,
            not_null: self.not_null,
            has_default: self.has_default,
            primary_key: self.primary_key,
        }
    }
}

impl TableColumn {
    /// Build a column from one `PRAGMA table_info` row: its `name`, `type`,
    /// `notnull` flag, `dflt_value` and `pk` index.
    pub fn from_table_info(
        name: String,
        declared_type: String,
        not_null: i64,
        default_value: Option<String>,
        primary_key: i64,
    ) -> (c: Self)
        ensures
            c@ == (ColumnView {
                name: name@,
                column_type: uppercase_chars(declared_type@),
                not_null: not_null != 0,
                has_default: default_value is Some,
                primary_key: primary_key != 0,
            }),
    {
        TableColumn {
            name,
            column_type: to_uppercase(declared_type.as_str()),
            not_null: not_null != 0,
            has_default: default_value.is_some(),
            primary_key: primary_key != 0,
        }
    }
}

/// The views of a list of columns.
pub open spec fn columns_view(columns: Seq<TableColumn>) -> Seq<ColumnView> {
    columns.map_values(|c: TableColumn| c@)
}

/// A column that the loader writes, with the declaration it expects.
pub struct RequiredColumn {
    pub name: Seq<char>,
    pub column_type: Seq<char>,
    pub not_null: bool,
    pub primary_key: bool,
}

/// The columns of `metrics` that the loader writes, in the order they are
/// checked.
pub open spec fn required_columns() -> Seq<RequiredColumn> {
    seq![
        RequiredColumn { name: "id"@, column_type: "TEXT"@, not_null: false, primary_key: true },
        RequiredColumn {
            name: "timestamp"@,
            column_type: "INTEGER"@,
            not_null: true,
            primary_key: false,
        },
        RequiredColumn { name: "value"@, column_type: "REAL"@, not_null: true, primary_key: false },
        RequiredColumn { name: "tag"@, column_type: "TEXT"@, not_null: true, primary_key: false },
        RequiredColumn {
            name: "positive"@,
            column_type: "INTEGER"@,
            not_null: true,
            primary_key: false,
        },
    ]
}

/// Whether `name` is the name of a column that the loader writes.
pub open spec fn is_required_name(name: Seq<char>) -> bool {
    exists|k: int| 0 <= k < required_columns().len() && required_columns()[k].name == name
}

/// Whether a column is declared as a required column expects.
pub open spec fn column_matches(column: ColumnView, required: RequiredColumn) -> bool {
    &&& column.column_type == required.column_type
    &&& column.not_null == required.not_null
    &&& column.primary_key == required.primary_key
}

/// The index of the last column called `name`, the one a by-name lookup
/// finds.
pub open spec fn column_named(columns: Seq<ColumnView>, name: Seq<char>) -> Option<int>
    decreases columns.len(),
{
    if columns.len() == 0 {
        None
    } else if columns.last().name == name {
        Some(columns.len() - 1)
    } else {
        column_named(columns.drop_last(), name)
    }
}

/// What `column_named` finds: the last column with the name, or none.
pub proof fn lemma_column_named(columns: Seq<ColumnView>, name: Seq<char>)
    ensures
        match column_named(columns, name) {
            Some(j) => {
                &&& 0 <= j < columns.len()
                &&& columns[j].name == name
                &&& forall|i: int| j < i < columns.len() ==> columns[i].name != name
            },
            None => forall|i: int| 0 <= i < columns.len() ==> columns[i].name != name,
        },
    decreases columns.len(),
{
    if columns.len() > 0 && columns.last().name != name {
        let rest = columns.drop_last();
        lemma_column_named(rest, name);
        assert forall|i: int| 0 <= i < rest.len() implies rest[i] == columns[i] by {}
        assert(columns[columns.len() - 1].name != name);
    }
}

/// The outcome of a schema check, as mathematical values.
pub enum SchemaVerdict {
    Accepted,
    MissingColumn(Seq<char>),
    ColumnMismatch(Seq<char>),
    RequiredExtraColumn(Seq<char>),
}

/// The first problem with the required columns, checking them from the
/// `k`-th on.
pub open spec fn required_problem(columns: Seq<ColumnView>, k: nat) -> SchemaVerdict
    decreases required_columns().len() - k,
{
    if k >= required_columns().len() {
        SchemaVerdict::Accepted
    } else {
        let required = required_columns()[k as int];
        match column_named(columns, required.name) {
            None => SchemaVerdict::MissingColumn(required.name),
            Some(j) => if !column_matches(columns[j], required) {
                SchemaVerdict::ColumnMismatch(required.name)
            } else {
                required_problem(columns, k + 1)
            },
        }
    }
}

/// Whether the `j`-th column is one that the loader cannot fill: not a
/// required column, `NOT NULL`, without a default. Of several columns with
/// one name only the last is considered, as a by-name lookup sees it.
pub open spec fn blocks_insert(columns: Seq<ColumnView>, j: int) -> bool {
    &&& !is_required_name(columns[j].name)
    &&& columns[j].not_null
    &&& !columns[j].has_default
    &&& column_named(columns, columns[j].name) == Some(j)
}

/// The first column from the `j`-th on that the loader cannot fill.
pub open spec fn extra_problem(columns: Seq<ColumnView>, j: nat) -> SchemaVerdict
    decreases columns.len() - j,
{
    if j >= columns.len() {
        SchemaVerdict::Accepted
    } else if blocks_insert(columns, j as int) {
        SchemaVerdict::RequiredExtraColumn(columns[j as int].name)
    } else {
        extra_problem(columns, j + 1)
    }
}

/// The verdict on a `metrics` table with these columns: the required columns
/// are checked in order (present, then declared as expected), then every
/// other column must be nullable or have a default.
pub open spec fn schema_verdict(columns: Seq<ColumnView>) -> SchemaVerdict {
    match required_problem(columns, 0) {
        SchemaVerdict::Accepted => extra_problem(columns, 0),
        problem => problem,
    }
}

/// Column names are unique, as SQLite guarantees within one table.
pub open spec fn names_unique(columns: Seq<ColumnView>) -> bool {
    forall|i: int, j: int|
        0 <= i < j < columns.len() ==> #[trigger] columns[i].name != #[trigger] columns[j].name
}

/// The table can take the loader's rows: each required column is present
/// and declared as expected, and every other column is nullable or has a
/// default value.
pub open spec fn schema_accepts(columns: Seq<ColumnView>) -> bool {
    &&& forall|k: int|
        0 <= k < required_columns().len() ==> exists|j: int|
            0 <= j < columns.len() && columns[j].name == (#[trigger] required_columns()[k]).name
                && column_matches(columns[j], required_columns()[k])
    &&& forall|j: int|
        0 <= j < columns.len() && !is_required_name(#[trigger] columns[j].name) ==> !columns[j].not_null
            || columns[j].has_default
}

proof fn lemma_required_problem(columns: Seq<ColumnView>, k: nat)
    requires
        names_unique(columns),
        k <= required_columns().len(),
    ensures
        (required_problem(columns, k) == SchemaVerdict::Accepted) <==> forall|m: int|
            k <= m < required_columns().len() ==> exists|j: int|
                0 <= j < columns.len() && columns[j].name == (#[trigger] required_columns()[m]).name
                    && column_matches(columns[j], required_columns()[m]),
    decreases required_columns().len() - k,
{
    if k < required_columns().len() {
        let required = required_columns()[k as int];
        lemma_column_named(columns, required.name);
        lemma_required_problem(columns, k + 1);
        match column_named(columns, required.name) {
            None => {
                assert(!(exists|j: int|
                    0 <= j < columns.len() && columns[j].name == required_columns()[k as int].name
                        && column_matches(columns[j], required_columns()[k as int])));
            },
            Some(j) => {
                if !column_matches(columns[j], required) {
                    assert forall|i: int|
                        0 <= i < columns.len() && columns[i].name == required.name implies i
                        == j by {
                        if i < j {
                            assert(columns[i].name != columns[j].name);
                        }
                    }
                    assert(!(exists|i: int|
                        0 <= i < columns.len() && columns[i].name == required_columns()[
                            k as int
                        ].name && column_matches(columns[i], required_columns()[k as int])));
                } else {
                    assert(0 <= j < columns.len() && columns[j].name == required_columns()[
                        k as int
                    ].name && column_matches(columns[j], required_columns()[k as int]));
                }
            },
        }
    }
}

proof fn lemma_unique_name_is_last(columns: Seq<ColumnView>, j: int)
    requires
        names_unique(columns),
        0 <= j < columns.len(),
    ensures
        column_named(columns, columns[j].name) == Some(j),
{
    lemma_column_named(columns, columns[j].name);
    match column_named(columns, columns[j].name) {
        Some(i) => {
            if i < j {
                assert(columns[i].name != columns[j].name);
            } else if j < i {
                assert(columns[j].name != columns[i].name);
            }
        },
        None => {},
    }
}

proof fn lemma_extra_problem(columns: Seq<ColumnView>, j: nat)
    requires
        names_unique(columns),
        j <= columns.len(),
    ensures
        (extra_problem(columns, j) == SchemaVerdict::Accepted) <==> forall|i: int|
            j <= i < columns.len() && !is_required_name(#[trigger] columns[i].name)
                ==> !columns[i].not_null || columns[i].has_default,
    decreases columns.len() - j,
{
    if j < columns.len() {
        lemma_unique_name_is_last(columns, j as int);
        lemma_extra_problem(columns, j + 1);
    }
}

/// On a table whose column names are unique, as SQLite keeps them, the
/// schema check accepts exactly the tables that can take the loader's rows:
/// each required column present and declared as expected, every other column
/// nullable or defaulted.
pub proof fn lemma_schema_accepted_iff(columns: Seq<ColumnView>)
    requires
        names_unique(columns),
    ensures
        (schema_verdict(columns) == SchemaVerdict::Accepted) <==> schema_accepts(columns),
{
    lemma_required_problem(columns, 0);
    lemma_extra_problem(columns, 0);
}

/// Whether the schema check accepts a table does not depend on the order of
/// its columns: two tables with the same columns, each with unique names,
/// are accepted or refused alike.
pub proof fn lemma_schema_acceptance_ignores_column_order(a: Seq<ColumnView>, b: Seq<ColumnView>)
    requires
        names_unique(a),
        names_unique(b),
        forall|c: ColumnView| a.contains(c) <==> b.contains(c),
    ensures
        (schema_verdict(a) == SchemaVerdict::Accepted) <==> (schema_verdict(b)
            == SchemaVerdict::Accepted),
{
    lemma_schema_accepted_iff(a);
    lemma_schema_accepted_iff(b);
    if schema_accepts(a) {
        lemma_accepts_transfers(a, b);
    }
    if schema_accepts(b) {
        lemma_accepts_transfers(b, a);
    }
}

proof fn lemma_accepts_transfers(a: Seq<ColumnView>, b: Seq<ColumnView>)
    requires
        forall|c: ColumnView| a.contains(c) <==> b.contains(c),
        schema_accepts(a),
    ensures
        schema_accepts(b),
{
    assert forall|k: int| 0 <= k < required_columns().len() implies exists|j: int|
        0 <= j < b.len() && b[j].name == (#[trigger] required_columns()[k]).name && column_matches(
            b[j],
            required_columns()[k],
        ) by {
        let i = choose|i: int|
            0 <= i < a.len() && a[i].name == required_columns()[k].name && column_matches(
                a[i],
                required_columns()[k],
            );
        assert(a.contains(a[i]));
        assert(b.contains(a[i]));
        let j = choose|j: int| 0 <= j < b.len() && b[j] == a[i];
        assert(b[j].name == required_columns()[k].name);
    }
    assert forall|j: int|
        0 <= j < b.len() && !is_required_name(#[trigger] b[j].name) implies !b[j].not_null
        || b[j].has_default by {
        assert(b.contains(b[j]));
        assert(a.contains(b[j]));
        let i = choose|i: int| 0 <= i < a.len() && a[i] == b[j];
        assert(!is_required_name(a[i].name));
    }
}

/// Whether `columns` hold a column called `name` declared with this type,
/// nullability and primary-key flag.
pub open spec fn has_column(
    columns: Seq<ColumnView>,
    name: Seq<char>,
    column_type: Seq<char>,
    not_null: bool,
    primary_key: bool,
) -> bool {
    exists|j: int|
        0 <= j < columns.len() && #[trigger] columns[j].name == name && columns[j].column_type
            == column_type && columns[j].not_null == not_null && columns[j].primary_key
            == primary_key
}

/// Whether `name` is one of the five columns the loader writes.
pub open spec fn is_metrics_column_name(name: Seq<char>) -> bool {
    name == "id"@ || name == "timestamp"@ || name == "value"@ || name == "tag"@ || name
        == "positive"@
}

proof fn lemma_required_accepted(columns: Seq<ColumnView>, k: nat)
    requires
        required_problem(columns, k) == SchemaVerdict::Accepted,
    ensures
        forall|m: int|
            k <= m < required_columns().len() ==> exists|j: int|
                0 <= j < columns.len() && columns[j].name == (#[trigger] required_columns()[m]).name
                    && column_matches(columns[j], required_columns()[m]),
    decreases required_columns().len() - k,
{
    if k < required_columns().len() {
        let required = required_columns()[k as int];
        lemma_column_named(columns, required.name);
        lemma_required_accepted(columns, k + 1);
        let j = column_named(columns, required.name)->0;
        assert(0 <= j < columns.len() && columns[j].name == required_columns()[k as int].name
            && column_matches(columns[j], required_columns()[k as int]));
    }
}

/// A table that the schema check accepts has the five columns the loader
/// writes, each declared as the loader needs it: `id TEXT` as the primary
/// key and nullable, `timestamp INTEGER`, `value REAL`, `tag TEXT` and
/// `positive INTEGER` all `NOT NULL` and outside the key. With unique column
/// names (as SQLite keeps them), every other column is nullable or has a
/// default. Conversely, a table with unique names, those five columns so
/// declared and no other `NOT NULL` column without a default is accepted;
/// and a table without an `id` column is refused for missing `id`.
pub proof fn lemma_schema_check_accepts_metrics_tables(columns: Seq<ColumnView>)
    ensures
        schema_verdict(columns) == SchemaVerdict::Accepted ==> {
            &&& has_column(columns, "id"@, "TEXT"@, false, true)
            &&& has_column(columns, "timestamp"@, "INTEGER"@, true, false)
            &&& has_column(columns, "value"@, "REAL"@, true, false)
            &&& has_column(columns, "tag"@, "TEXT"@, true, false)
            &&& has_column(columns, "positive"@, "INTEGER"@, true, false)
            &&& names_unique(columns) ==> forall|j: int|
                0 <= j < columns.len() && !is_metrics_column_name(#[trigger] columns[j].name)
                    ==> !columns[j].not_null || columns[j].has_default
        },
        ({
            &&& names_unique(columns)
            &&& has_column(columns, "id"@, "TEXT"@, false, true)
            &&& has_column(columns, "timestamp"@, "INTEGER"@, true, false)
            &&& has_column(columns, "value"@, "REAL"@, true, false)
            &&& has_column(columns, "tag"@, "TEXT"@, true, false)
            &&& has_column(columns, "positive"@, "INTEGER"@, true, false)
            &&& forall|j: int|
                0 <= j < columns.len() && !is_metrics_column_name(#[trigger] columns[j].name)
                    ==> !columns[j].not_null || columns[j].has_default
        }) ==> schema_verdict(columns) == SchemaVerdict::Accepted,
        (forall|j: int| 0 <= j < columns.len() ==> #[trigger] columns[j].name != "id"@)
            ==> schema_verdict(columns) == SchemaVerdict::MissingColumn("id"@),
        forall|j: int|
            0 <= j < columns.len() && names_unique(columns) && #[trigger] columns[j].name == "id"@
                && (!columns[j].primary_key || columns[j].not_null || columns[j].column_type
                != "TEXT"@) ==> schema_verdict(columns) == SchemaVerdict::ColumnMismatch("id"@),
{
    assert forall|j: int|
        0 <= j < columns.len() && names_unique(columns) && #[trigger] columns[j].name == "id"@
            && (!columns[j].primary_key || columns[j].not_null || columns[j].column_type
            != "TEXT"@) implies schema_verdict(columns) == SchemaVerdict::ColumnMismatch(
        "id"@,
    ) by {
        lemma_unique_name_is_last(columns, j);
        assert(required_columns()[0].name == "id"@);
        assert(!column_matches(columns[j], required_columns()[0]));
    }
    let req = required_columns();
    assert(req[0].name == "id"@ && req[1].name == "timestamp"@ && req[2].name == "value"@
        && req[3].name == "tag"@ && req[4].name == "positive"@);
    assert forall|n: Seq<char>| is_required_name(n) <==> is_metrics_column_name(n) by {
        if is_metrics_column_name(n) {
            if n == "id"@ {
                assert(req[0].name == n);
            } else if n == "timestamp"@ {
                assert(req[1].name == n);
            } else if n == "value"@ {
                assert(req[2].name == n);
            } else if n == "tag"@ {
                assert(req[3].name == n);
            } else {
                assert(req[4].name == n);
            }
        }
    }
    if schema_verdict(columns) == SchemaVerdict::Accepted {
        assert(required_problem(columns, 0) == SchemaVerdict::Accepted);
        lemma_required_accepted(columns, 0);
        assert(req[0] == required_columns()[0]);
        let j0 = choose|j: int|
            0 <= j < columns.len() && columns[j].name == req[0].name && column_matches(
                columns[j],
                req[0],
            );
        let j1 = choose|j: int|
            0 <= j < columns.len() && columns[j].name == req[1].name && column_matches(
                columns[j],
                req[1],
            );
        let j2 = choose|j: int|
            0 <= j < columns.len() && columns[j].name == req[2].name && column_matches(
                columns[j],
                req[2],
            );
        let j3 = choose|j: int|
            0 <= j < columns.len() && columns[j].name == req[3].name && column_matches(
                columns[j],
                req[3],
            );
        let j4 = choose|j: int|
            0 <= j < columns.len() && columns[j].name == req[4].name && column_matches(
                columns[j],
                req[4],
            );
        assert(columns[j0].name == "id"@);
        assert(columns[j1].name == "timestamp"@);
        assert(columns[j2].name == "value"@);
        assert(columns[j3].name == "tag"@);
        assert(columns[j4].name == "positive"@);
        if names_unique(columns) {
            lemma_schema_accepted_iff(columns);
        }
    }
    if names_unique(columns) && has_column(columns, "id"@, "TEXT"@, false, true) && has_column(
        columns,
        "timestamp"@,
        "INTEGER"@,
        true,
        false,
    ) && has_column(columns, "value"@, "REAL"@, true, false) && has_column(
        columns,
        "tag"@,
        "TEXT"@,
        true,
        false,
    ) && has_column(columns, "positive"@, "INTEGER"@, true, false) && (forall|j: int|
        0 <= j < columns.len() && !is_metrics_column_name(#[trigger] columns[j].name)
            ==> !columns[j].not_null || columns[j].has_default) {
        assert forall|k: int| 0 <= k < req.len() implies exists|j: int|
            0 <= j < columns.len() && columns[j].name == (#[trigger] required_columns()[k]).name
                && column_matches(columns[j], required_columns()[k]) by {
            if k == 0 {
                let j = choose|j: int|
                    0 <= j < columns.len() && columns[j].name == "id"@ && columns[j].column_type
                        == "TEXT"@ && columns[j].not_null == false && columns[j].primary_key
                        == true;
                assert(column_matches(columns[j], req[0]));
            } else if k == 1 {
                let j = choose|j: int|
                    0 <= j < columns.len() && columns[j].name == "timestamp"@
                        && columns[j].column_type == "INTEGER"@ && columns[j].not_null == true
                        && columns[j].primary_key == false;
                assert(column_matches(columns[j], req[1]));
            } else if k == 2 {
                let j = choose|j: int|
                    0 <= j < columns.len() && columns[j].name == "value"@
                        && columns[j].column_type == "REAL"@ && columns[j].not_null == true
                        && columns[j].primary_key == false;
                assert(column_matches(columns[j], req[2]));
            } else if k == 3 {
                let j = choose|j: int|
                    0 <= j < columns.len() && columns[j].name == "tag"@ && columns[j].column_type
                        == "TEXT"@ && columns[j].not_null == true && columns[j].primary_key
                        == false;
                assert(column_matches(columns[j], req[3]));
            } else {
                let j = choose|j: int|
                    0 <= j < columns.len() && columns[j].name == "positive"@
                        && columns[j].column_type == "INTEGER"@ && columns[j].not_null == true
                        && columns[j].primary_key == false;
                assert(column_matches(columns[j], req[4]));
            }
        }
        lemma_schema_accepted_iff(columns);
    }
    if forall|j: int| 0 <= j < columns.len() ==> #[trigger] columns[j].name != "id"@ {
        lemma_column_named(columns, "id"@);
    }
}

/// Why the `metrics` table cannot be used.
#[derive(Debug, PartialEq)]
pub enum SchemaError {
    /// A required column is missing.
    MissingColumn(String),
    /// A required column has another type, nullability or key.
    ColumnMismatch(String),
    /// Another column is `NOT NULL` without a default value.
    RequiredExtraColumn(String),
}

/// The mathematical content of a schema check result.
pub open spec fn verdict_of(r: Result<(), SchemaError>) -> SchemaVerdict {
    match r {
        Ok(()) => SchemaVerdict::Accepted,
        Err(SchemaError::MissingColumn(n)) => SchemaVerdict::MissingColumn(n@),
        Err(SchemaError::ColumnMismatch(n)) => SchemaVerdict::ColumnMismatch(n@),
        Err(SchemaError::RequiredExtraColumn(n)) => SchemaVerdict::RequiredExtraColumn(n@),
    }
}

impl SchemaError {
    /// The chars of the human-readable reason.
    pub open spec fn message_chars(&self) -> Seq<char> {
        match self {
            SchemaError::MissingColumn(n) => "metrics table is missing required column "@ + n@,
            SchemaError::ColumnMismatch(n) => "metrics table column "@ + n@
                + " does not match expected schema"@,
            SchemaError::RequiredExtraColumn(n) => "metrics table has required extra column "@
                + n@ + " without a default value"@,
        }
    }

    /// Human-readable reason.
    pub fn message(&self) -> (m: String)
        ensures
            m@ == self.message_chars(),
    {
        match self {
            SchemaError::MissingColumn(n) => {
                let mut m = String::from_str("metrics table is missing required column ");
                m.append(n.as_str());
                m
            },
            SchemaError::ColumnMismatch(n) => {
                let mut m = String::from_str("metrics table column ");
                m.append(n.as_str());
                m.append(" does not match expected schema");
                m
            },
            SchemaError::RequiredExtraColumn(n) => {
                let mut m = String::from_str("metrics table has required extra column ");
                m.append(n.as_str());
                m.append(" without a default value");
                m
            },
        }
    }
}

/// The `k`-th required column: name, type, `NOT NULL`, primary key.
fn required_column(k: usize) -> (r: (&'static str, &'static str, bool, bool))
    requires
        k < 5,
    ensures
        r.0@ == required_columns()[k as int].name,
        r.1@ == required_columns()[k as int].column_type,
        r.2 == required_columns()[k as int].not_null,
        r.3 == required_columns()[k as int].primary_key,
{
    if k == 0 {
        ("id", "TEXT", false, true)
    } else if k == 1 {
        ("timestamp", "INTEGER", true, false)
    } else if k == 2 {
        ("value", "REAL", true, false)
    } else if k == 3 {
        ("tag", "TEXT", true, false)
    } else {
        ("positive", "INTEGER", true, false)
    }
}

/// Whether `name` names a required column.
fn required_name(name: &str) -> (b: bool)
    ensures
        b == is_required_name(name@),
{
    let mut k: usize = 0;
    while k < 5
        invariant
            k <= 5,
            forall|i: int| 0 <= i < k ==> required_columns()[i].name != name@,
        decreases 5 - k,
    {
        let (required, _, _, _) = required_column(k);
        if chars_equal(required, name) {
            return true;
        }
        k = k + 1;
    }
    false
}

/// The index of the last column called `name`.
fn find_column(columns: &Vec<TableColumn>, name: &str) -> (r: Option<usize>)
    ensures
        match r {
            None => column_named(columns_view(columns@), name@) is None,
            Some(j) => j < columns@.len() && column_named(columns_view(columns@), name@) == Some(
                j as int,
            ),
        },
{
    let ghost view = columns_view(columns@);
    let mut i: usize = columns.len();
    assert(view.subrange(0, i as int) =~= view);
    while i > 0
        invariant
            i <= columns@.len(),
            view == columns_view(columns@),
            column_named(view, name@) == column_named(view.subrange(0, i as int), name@),
        decreases i,
    {
        let ghost prefix = view.subrange(0, i as int);
        assert(prefix.last() == columns@[i - 1]@);
        if chars_equal(columns[i - 1].name.as_str(), name) {
            return Some(i - 1);
        }
        assert(prefix.drop_last() =~= view.subrange(0, i - 1));
        i = i - 1;
    }
    None
}

/// Check that the `metrics` table, with these columns, can take the rows the
/// loader writes: every required column is present and declared as expected,
/// and no other column is `NOT NULL` without a default value.
pub fn validate_metrics_table(columns: &Vec<TableColumn>) -> (r: Result<(), SchemaError>)
    ensures
        verdict_of(r) == schema_verdict(columns_view(columns@)),
        r is Ok ==> {
            &&& has_column(columns_view(columns@), "id"@, "TEXT"@, false, true)
            &&& has_column(columns_view(columns@), "timestamp"@, "INTEGER"@, true, false)
            &&& has_column(columns_view(columns@), "value"@, "REAL"@, true, false)
            &&& has_column(columns_view(columns@), "tag"@, "TEXT"@, true, false)
            &&& has_column(columns_view(columns@), "positive"@, "INTEGER"@, true, false)
        },
{
    proof {
        lemma_schema_check_accepts_metrics_tables(columns_view(columns@));
    }
    let ghost view = columns_view(columns@);
    let mut k: usize = 0;
    while k < 5
        invariant
            k <= 5,
            view == columns_view(columns@),
            required_problem(view, 0) == required_problem(view, k as nat),
        decreases 5 - k,
    {
        let (name, column_type, not_null, primary_key) = required_column(k);
        match find_column(columns, name) {
            None => {
                return Err(SchemaError::MissingColumn(String::from_str(name)));
            },
            Some(j) => {
                let column = &columns[j];
                assert(view[j as int] == column@);
                if !chars_equal(column.column_type.as_str(), column_type) || column.not_null
                    != not_null || column.primary_key != primary_key {
                    return Err(SchemaError::ColumnMismatch(String::from_str(name)));
                }
            },
        }
        k = k + 1;
    }
    let mut j: usize = 0;
    while j < columns.len()
        invariant
            j <= columns@.len(),
            view == columns_view(columns@),
            required_problem(view, 0) == SchemaVerdict::Accepted,
            extra_problem(view, 0) == extra_problem(view, j as nat),
        decreases columns@.len() - j,
    {
        let column = &columns[j];
        assert(view[j as int] == column@);
        if !required_name(column.name.as_str()) && column.not_null && !column.has_default {
            match find_column(columns, column.name.as_str()) {
                Some(last) => {
                    if last == j {
                        return Err(SchemaError::RequiredExtraColumn(column.name.clone()));
                    }
                },
                None => {},
            }
        }
        j = j + 1;
    }
    Ok(())
}

/// Row-level database failure captured for structured logging.
#[derive(Clone, Debug, PartialEq)]
pub struct DatabaseRowFailure {
    /// Original source context for the failed row.
    pub context: RecordContext,
    /// Cleaned row that SQLite rejected.
    pub record: CleanRecord,
    /// Database error message, usually a constraint failure.
    pub reason: String,
}

/// Insert outcome for one batch.
#[derive(Clone, Debug, PartialEq)]
pub struct BatchInsertResult {
    /// Number of rows inserted successfully.
    pub inserted: usize,
    /// Number of expected row-level database failures.
    pub failed: usize,
    /// Database failures with source context retained for structured logging.
    pub failures: Vec<DatabaseRowFailure>,
}

/// What SQLite answered to the INSERT of one row.
#[derive(Debug, PartialEq)]
pub enum InsertOutcome {
    /// The row was inserted.
    Inserted,
    /// SQLite refused the row with a constraint violation, such as a
    /// duplicate primary key; the message is SQLite's.
    ConstraintViolation(String),
    /// Any other database error; the batch cannot go on.
    Fatal(String),
}

/// The rows of one batch while they are being inserted, in input order, and
/// the outcomes counted so far.
pub struct BatchInsert {
    /// The rows not yet inserted, last row first: the next row is at the end.
    upcoming: Vec<PreparedRecord>,
    rows: usize,
    result: BatchInsertResult,
}

/// The mathematical content of a [`BatchInsert`].
pub struct BatchInsertView {
    /// The rows not yet inserted, in input order.
    pub remaining: Seq<PreparedRecord>,
    /// Number of rows in the batch.
    pub rows: nat,
    pub inserted: nat,
    pub failed: nat,
    pub failures: Seq<DatabaseRowFailure>,
}

impl View for BatchInsert {
    type V = BatchInsertView;

    open spec fn view(&self) -> BatchInsertView {
        self.insert_view()
    }
}

impl BatchInsert {
    /// The rows still to insert and the counts so far.
    pub closed spec fn insert_view(&self) -> BatchInsertView {
        BatchInsertView {
            remaining: self.upcoming@.reverse(),
            rows: self.rows as nat,
            inserted: self.result.inserted as nat,
            failed: self.result.failed as nat,
            failures: self.result.failures@,
        }
    }

    /// Every row of the batch is either still to insert or counted once, and
    /// each counted failure is kept.
    pub open spec fn wf(&self) -> bool {
        &&& self@.inserted + self@.failed + self@.remaining.len() == self@.rows
        &&& self@.failed == self@.failures.len()
    }

    /// Start inserting `batch`, in order.
    pub fn new(batch: Vec<PreparedRecord>) -> (b: Self)
        ensures
            b.wf(),
            b@.remaining == batch@,
            b@.rows == batch@.len(),
            b@.inserted == 0,
            b@.failures.len() == 0,
    {
        let rows = batch.len();
        let mut batch = batch;
        let ghost original = batch@;
        let mut upcoming: Vec<PreparedRecord> = Vec::new();
        while batch.len() > 0
            invariant
                original == batch@ + upcoming@.reverse(),
            decreases batch@.len(),
        {
            let ghost before = batch@;
            let ghost up = upcoming@;
            let row = batch.pop().unwrap();
            upcoming.push(row);
            assert(upcoming@.reverse() =~= seq![row] + up.reverse());
            assert(before =~= batch@.push(row));
            assert(original =~= batch@ + upcoming@.reverse());
        }
        assert(original =~= upcoming@.reverse());
        BatchInsert {
            upcoming,
            rows,
            result: BatchInsertResult { inserted: 0, failed: 0, failures: Vec::new() },
        }
    }

    /// The next row to insert, if any is left.
    pub fn next_record(&self) -> (r: Option<&CleanRecord>)
        ensures
            self@.remaining.len() == 0 ==> r is None,
            self@.remaining.len() > 0 ==> r == Some(&self@.remaining[0].record),
    {
        let n = self.upcoming.len();
        if n == 0 {
            None
        } else {
            Some(&self.upcoming[n - 1].record)
        }
    }

    /// Count what SQLite answered for the next row. A constraint violation
    /// keeps the row, its context and the message as a failure; an inserted
    /// row is counted; any other error is returned and nothing is counted.
    pub fn record_outcome(&mut self, outcome: InsertOutcome) -> (r: Result<(), String>)
        requires
            old(self).wf(),
            old(self)@.remaining.len() > 0,
        ensures
            final(self).wf(),
            final(self)@.rows == old(self)@.rows,
            match outcome {
                InsertOutcome::Inserted => {
                    &&& r is Ok
                    &&& final(self)@.remaining == old(self)@.remaining.drop_first()
                    &&& final(self)@.inserted == old(self)@.inserted + 1
                    &&& final(self)@.failed == old(self)@.failed
                    &&& final(self)@.failures == old(self)@.failures
                },
                InsertOutcome::ConstraintViolation(reason) => {
                    &&& r is Ok
                    &&& final(self)@.remaining == old(self)@.remaining.drop_first()
                    &&& final(self)@.inserted == old(self)@.inserted
                    &&& final(self)@.failed == old(self)@.failed + 1
                    &&& final(self)@.failures == old(self)@.failures.push(
                        DatabaseRowFailure {
                            context: old(self)@.remaining[0].context,
                            record: old(self)@.remaining[0].record,
                            reason,
                        },
                    )
                },
                InsertOutcome::Fatal(message) => {
                    &&& r == Err::<(), String>(message)
                    &&& final(self)@ == old(self)@
                },
            },
    {
        let ghost up = self.upcoming@;
        assert(up.reverse()[0] == up.last());
        assert(up.reverse().drop_first() =~= up.drop_last().reverse());
        match outcome {
            InsertOutcome::Inserted => {
                let _ = self.upcoming.pop();
                self.result.inserted = self.result.inserted + 1;
                Ok(())
            },
            InsertOutcome::ConstraintViolation(reason) => {
                let row = self.upcoming.pop().unwrap();
                self.result.failures.push(
                    DatabaseRowFailure { context: row.context, record: row.record, reason },
                );
                self.result.failed = self.result.failed + 1;
                Ok(())
            },
            InsertOutcome::Fatal(message) => Err(message),
        }
    }

    /// The counts of a batch whose rows have all been inserted or refused:
    /// every row is counted exactly once.
    pub fn finish(self) -> (r: BatchInsertResult)
        requires
            self.wf(),
            self@.remaining.len() == 0,
        ensures
            r.inserted == self@.inserted,
            r.failed == self@.failed,
            r.failures@ == self@.failures,
            r.inserted + r.failed == self@.rows,
            r.failed == r.failures@.len(),
    {
        self.result
    }
}

} // verus!
