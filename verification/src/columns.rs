//! Which columns of which tables get which treatment, and the statement
//! that applies it.

use crate::schema::{is_system_table, tables, TableSchema, TableSchemaModel};
use crate::sql::{decimal, quote_identifier, quoted, render_integer};
use vstd::prelude::*;

verus! {

/// The name under which the anonymizing function is known to the query
/// engine. The statements of this module call it by that name.
pub const FUNCTION_NAME: &'static str = "anonymize";

/// What is to happen to one column, or to one table.
#[derive(Debug, PartialEq, Eq)]
pub enum ColumnSpec {
    /// Every row's value in `column` is replaced by its anonymized form.
    Anonymize { table: String, column: String },
    /// As `Anonymize`, but an absent value counts as the empty text.
    CoalesceAnonymize { table: String, column: String },
    /// Every row of `table` is deleted.
    DeleteAllRows { table: String },
    /// Every row's value in `column` is set to `value`.
    SetConstant { table: String, column: String, value: i64 },
}

/// A `ColumnSpec` with its names as plain text.
pub enum ColumnSpecModel {
    Anonymize { table: Seq<char>, column: Seq<char> },
    CoalesceAnonymize { table: Seq<char>, column: Seq<char> },
    DeleteAllRows { table: Seq<char> },
    SetConstant { table: Seq<char>, column: Seq<char>, value: i64 },
}

impl View for ColumnSpec {
    type V = ColumnSpecModel;

    open spec fn view(&self) -> ColumnSpecModel {
        match self {
            ColumnSpec::Anonymize { table, column } => ColumnSpecModel::Anonymize {
                table: table@,
                column: column@,
            },
            ColumnSpec::CoalesceAnonymize { table, column } => ColumnSpecModel::CoalesceAnonymize {
                table: table@,
                column: column@,
            },
            ColumnSpec::DeleteAllRows { table } => ColumnSpecModel::DeleteAllRows {
                table: table@,
            },
            ColumnSpec::SetConstant { table, column, value } => ColumnSpecModel::SetConstant {
                table: table@,
                column: column@,
                value: *value,
            },
        }
    }
}

impl ColumnSpecModel {
    /// The table that the spec is about.
    pub open spec fn table(self) -> Seq<char> {
        match self {
            ColumnSpecModel::Anonymize { table, .. } => table,
            ColumnSpecModel::CoalesceAnonymize { table, .. } => table,
            ColumnSpecModel::DeleteAllRows { table } => table,
            ColumnSpecModel::SetConstant { table, .. } => table,
        }
    }

    /// The column that the spec is about, if it is about one.
    pub open spec fn column(self) -> Option<Seq<char>> {
        match self {
            ColumnSpecModel::Anonymize { column, .. } => Some(column),
            ColumnSpecModel::CoalesceAnonymize { column, .. } => Some(column),
            ColumnSpecModel::DeleteAllRows { .. } => None,
            ColumnSpecModel::SetConstant { column, .. } => Some(column),
        }
    }
}

/// The statement that carries out `spec` on every row at once.
pub open spec fn statement_text(spec: ColumnSpecModel) -> Seq<char> {
    match spec {
        ColumnSpecModel::Anonymize { table, column } => "UPDATE "@ + quoted(table) + " SET "@
            + quoted(column) + " = "@ + FUNCTION_NAME@ + "("@ + quoted(column) + ")"@,
        ColumnSpecModel::CoalesceAnonymize { table, column } => "UPDATE "@ + quoted(table)
            + " SET "@ + quoted(column) + " = "@ + FUNCTION_NAME@ + "(IFNULL("@ + quoted(column)
            + ", ''))"@,
        ColumnSpecModel::DeleteAllRows { table } => "DELETE FROM "@ + quoted(table),
        ColumnSpecModel::SetConstant { table, column, value } => "UPDATE "@ + quoted(table)
            + " SET "@ + quoted(column) + " = "@ + decimal(value as int),
    }
}

/// The models of a list of column specs.
pub open spec fn models(specs: Seq<ColumnSpec>) -> Seq<ColumnSpecModel> {
    specs.map_values(|spec: ColumnSpec| spec@)
}

impl ColumnSpec {
    /// The spec that anonymizes `column` of `table`.
    pub fn anonymize(table: &str, column: &str) -> (spec: Self)
        ensures
            spec@ == (ColumnSpecModel::Anonymize { table: table@, column: column@ }),
    {
        ColumnSpec::Anonymize { table: String::from_str(table), column: String::from_str(column) }
    }

    /// The spec that anonymizes `column` of `table` and takes an absent
    /// value for the empty text.
    pub fn coalesce_anonymize(table: &str, column: &str) -> (spec: Self)
        ensures
            spec@ == (ColumnSpecModel::CoalesceAnonymize { table: table@, column: column@ }),
    {
        ColumnSpec::CoalesceAnonymize {
            table: String::from_str(table),
            column: String::from_str(column),
        }
    }

    /// The spec that deletes every row of `table`.
    pub fn delete_all_rows(table: &str) -> (spec: Self)
        ensures
            spec@ == (ColumnSpecModel::DeleteAllRows { table: table@ }),
    {
        ColumnSpec::DeleteAllRows { table: String::from_str(table) }
    }

    /// The spec that sets `column` of `table` to `value` in every row.
    pub fn set_constant(table: &str, column: &str, value: i64) -> (spec: Self)
        ensures
            spec@ == (ColumnSpecModel::SetConstant { table: table@, column: column@, value }),
    {
        ColumnSpec::SetConstant {
            table: String::from_str(table),
            column: String::from_str(column),
            value,
        }
    }

    /// The table that the spec is about.
    pub fn table(&self) -> (name: &str)
        ensures
            name@ == self@.table(),
    {
        match self {
            ColumnSpec::Anonymize { table, .. } => table.as_str(),
            ColumnSpec::CoalesceAnonymize { table, .. } => table.as_str(),
            ColumnSpec::DeleteAllRows { table } => table.as_str(),
            ColumnSpec::SetConstant { table, .. } => table.as_str(),
        }
    }

    /// The column that the spec is about, if it is about one.
    pub fn column(&self) -> (name: Option<&str>)
        ensures
            match name {
                Some(text) => self@.column() == Some(text@),
                None => self@.column() is None,
            },
    {
        match self {
            ColumnSpec::Anonymize { column, .. } => Some(column.as_str()),
            ColumnSpec::CoalesceAnonymize { column, .. } => Some(column.as_str()),
            ColumnSpec::DeleteAllRows { .. } => None,
            ColumnSpec::SetConstant { column, .. } => Some(column.as_str()),
        }
    }

    /// Writes the statement that carries out the spec on every row at once.
    pub fn statement(&self) -> (text: String)
        ensures
            text@ == statement_text(self@),
    {
        match self {
            ColumnSpec::Anonymize { table, column } => {
                let target = quote_identifier(column.as_str());
                let mut text = String::from_str("UPDATE ");
                text.append(quote_identifier(table.as_str()).as_str());
                text.append(" SET ");
                text.append(target.as_str());
                text.append(" = ");
                text.append(FUNCTION_NAME);
                text.append("(");
                text.append(target.as_str());
                text.append(")");
                text
            },
            ColumnSpec::CoalesceAnonymize { table, column } => {
                let target = quote_identifier(column.as_str());
                let mut text = String::from_str("UPDATE ");
                text.append(quote_identifier(table.as_str()).as_str());
                text.append(" SET ");
                text.append(target.as_str());
                text.append(" = ");
                text.append(FUNCTION_NAME);
                text.append("(IFNULL(");
                text.append(target.as_str());
                text.append(", ''))");
                text
            },
            ColumnSpec::DeleteAllRows { table } => {
                let mut text = String::from_str("DELETE FROM ");
                text.append(quote_identifier(table.as_str()).as_str());
                text
            },
            ColumnSpec::SetConstant { table, column, value } => {
                let mut text = String::from_str("UPDATE ");
                text.append(quote_identifier(table.as_str()).as_str());
                text.append(" SET ");
                text.append(quote_identifier(column.as_str()).as_str());
                text.append(" = ");
                text.append(render_integer(*value).as_str());
                text
            },
        }
    }
}

/// The treatment of the history database, table by table: which text fields
/// identify the user and are anonymized, which derived column is reset, and
/// which auxiliary tables are emptied. Counts, scores, timestamps and row
/// identifiers are not listed and stay as they are.
pub open spec fn places_targets() -> Seq<ColumnSpecModel> {
    seq![
        ColumnSpecModel::CoalesceAnonymize { table: "moz_origins"@, column: "prefix"@ },
        ColumnSpecModel::CoalesceAnonymize { table: "moz_origins"@, column: "host"@ },
        ColumnSpecModel::CoalesceAnonymize { table: "moz_inputhistory"@, column: "input"@ },
        ColumnSpecModel::Anonymize { table: "moz_places"@, column: "url"@ },
        ColumnSpecModel::CoalesceAnonymize { table: "moz_places"@, column: "title"@ },
        ColumnSpecModel::CoalesceAnonymize { table: "moz_places"@, column: "rev_host"@ },
        ColumnSpecModel::CoalesceAnonymize { table: "moz_places"@, column: "description"@ },
        ColumnSpecModel::CoalesceAnonymize {
            table: "moz_places"@,
            column: "preview_image_url"@,
        },
        ColumnSpecModel::SetConstant { table: "moz_places"@, column: "url_hash"@, value: 0 },
        ColumnSpecModel::CoalesceAnonymize { table: "moz_bookmarks"@, column: "title"@ },
        ColumnSpecModel::CoalesceAnonymize { table: "moz_bookmarks"@, column: "folder_type"@ },
        ColumnSpecModel::DeleteAllRows { table: "moz_hosts"@ },
        ColumnSpecModel::DeleteAllRows { table: "moz_anno_attributes"@ },
        ColumnSpecModel::DeleteAllRows { table: "moz_annos"@ },
        ColumnSpecModel::DeleteAllRows { table: "moz_items_annos"@ },
        ColumnSpecModel::DeleteAllRows { table: "moz_bookmarks_deleted"@ },
        ColumnSpecModel::DeleteAllRows { table: "moz_keywords"@ },
    ]
}

/// The hand-maintained list of column specs for the history database.
pub fn places_column_specs() -> (specs: Vec<ColumnSpec>)
    ensures
        models(specs@) == places_targets(),
{
    let mut specs: Vec<ColumnSpec> = Vec::new();
    specs.push(ColumnSpec::coalesce_anonymize("moz_origins", "prefix"));
    specs.push(ColumnSpec::coalesce_anonymize("moz_origins", "host"));
    specs.push(ColumnSpec::coalesce_anonymize("moz_inputhistory", "input"));
    specs.push(ColumnSpec::anonymize("moz_places", "url"));
    specs.push(ColumnSpec::coalesce_anonymize("moz_places", "title"));
    specs.push(ColumnSpec::coalesce_anonymize("moz_places", "rev_host"));
    specs.push(ColumnSpec::coalesce_anonymize("moz_places", "description"));
    specs.push(ColumnSpec::coalesce_anonymize("moz_places", "preview_image_url"));
    specs.push(ColumnSpec::set_constant("moz_places", "url_hash", 0));
    specs.push(ColumnSpec::coalesce_anonymize("moz_bookmarks", "title"));
    specs.push(ColumnSpec::coalesce_anonymize("moz_bookmarks", "folder_type"));
    specs.push(ColumnSpec::delete_all_rows("moz_hosts"));
    specs.push(ColumnSpec::delete_all_rows("moz_anno_attributes"));
    specs.push(ColumnSpec::delete_all_rows("moz_annos"));
    specs.push(ColumnSpec::delete_all_rows("moz_items_annos"));
    specs.push(ColumnSpec::delete_all_rows("moz_bookmarks_deleted"));
    specs.push(ColumnSpec::delete_all_rows("moz_keywords"));
    specs
}

/// What the generic mode does with one table: nothing if the table belongs
/// to the database engine, else it anonymizes every column, in order.
pub open spec fn table_targets(table: TableSchemaModel) -> Seq<ColumnSpecModel> {
    if is_system_table(table.name) {
        Seq::empty()
    } else {
        table.columns.map_values(
            |column: Seq<char>| ColumnSpecModel::Anonymize { table: table.name, column },
        )
    }
}

/// What the generic mode does with a schema: the targets of its tables, one
/// table after the other.
pub open spec fn discovered(schema: Seq<TableSchemaModel>) -> Seq<ColumnSpecModel>
    decreases schema.len(),
{
    if schema.len() == 0 {
        Seq::empty()
    } else {
        discovered(schema.drop_last()) + table_targets(schema.last())
    }
}

/// The column specs of the generic mode: every column of every table that
/// is not the database engine's own is anonymized.
pub fn discover(schema: &Vec<TableSchema>) -> (specs: Vec<ColumnSpec>)
    ensures
        models(specs@) == discovered(tables(schema@)),
{
    let mut specs: Vec<ColumnSpec> = Vec::new();
    let mut i: usize = 0;
    while i < schema.len()
        invariant
            i <= schema.len(),
            models(specs@) == discovered(tables(schema@).take(i as int)),
        decreases schema.len() - i,
    {
        let table = &schema[i];
        let ghost done = models(specs@);
        assert(tables(schema@).take(i + 1).drop_last() =~= tables(schema@).take(i as int));
        if !table.is_system() {
            let mut j: usize = 0;
            while j < table.columns.len()
                invariant
                    j <= table.columns.len(),
                    !is_system_table(table@.name),
                    models(specs@) == done + table_targets(table@).take(j as int),
                decreases table.columns.len() - j,
            {
                let spec = ColumnSpec::Anonymize {
                    table: table.name.clone(),
                    column: table.columns[j].clone(),
                };
                let ghost earlier = specs@;
                specs.push(spec);
                assert(models(specs@) =~= models(earlier).push(table_targets(table@)[j as int]));
                j += 1;
            }
        }
        i += 1;
    }
    assert(tables(schema@).take(i as int) =~= tables(schema@));
    specs
}

} // verus!
