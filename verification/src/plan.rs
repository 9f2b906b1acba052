//! From column specs to the statements of a rewrite, checked against the
//! schema first.

use crate::columns::{
    discovered, models, statement_text, table_targets, ColumnSpec, ColumnSpecModel,
};
use crate::error::{Cause, CauseModel, RewriteFailed};
use crate::schema::{
    has_column, has_table, is_system_table, schema_has, tables, TableSchema, TableSchemaModel,
};
use vstd::prelude::*;

verus! {

/// Whether the schema has what `spec` names: its table, and in that table
/// its column, if it names one. Names are compared letter for letter.
pub open spec fn resolves(spec: ColumnSpecModel, schema: Seq<TableSchemaModel>) -> bool {
    match spec.column() {
        Some(column) => has_column(schema, spec.table(), column),
        None => has_table(schema, spec.table()),
    }
}

/// What is reported of a spec that does not resolve: its table alone where
/// the schema has no such table, else its table and the missing column.
pub open spec fn mismatch(spec: ColumnSpecModel, schema: Seq<TableSchemaModel>) -> CauseModel {
    CauseModel::SchemaMismatch {
        table: spec.table(),
        column: if has_table(schema, spec.table()) {
            spec.column()
        } else {
            None
        },
    }
}

/// Whether `specs[index]` is the first spec that does not resolve.
pub open spec fn first_unresolved(
    specs: Seq<ColumnSpecModel>,
    schema: Seq<TableSchemaModel>,
    index: int,
) -> bool {
    &&& 0 <= index < specs.len()
    &&& !resolves(specs[index], schema)
    &&& forall|i: int| 0 <= i < index ==> resolves(#[trigger] specs[i], schema)
}

/// The statements of the specs, one for each, in their order.
pub open spec fn statements_of(specs: Seq<ColumnSpecModel>) -> Seq<Seq<char>> {
    specs.map_values(|spec: ColumnSpecModel| statement_text(spec))
}

/// The texts of a list of statements.
pub open spec fn texts(statements: Seq<String>) -> Seq<Seq<char>> {
    statements.map_values(|statement: String| statement@)
}

/// Holds one spec against the schema.
pub fn check(spec: &ColumnSpec, schema: &Vec<TableSchema>) -> (verdict: Result<(), RewriteFailed>)
    ensures
        match verdict {
            Ok(_) => resolves(spec@, tables(schema@)),
            Err(failure) => !resolves(spec@, tables(schema@)) && failure@ == mismatch(
                spec@,
                tables(schema@),
            ),
        },
{
    if schema_has(schema, spec.table(), spec.column()) {
        return Ok(());
    }
    let column = if schema_has(schema, spec.table(), None) {
        match spec.column() {
            Some(name) => Some(String::from_str(name)),
            None => None,
        }
    } else {
        None
    };
    Err(RewriteFailed::new(Cause::SchemaMismatch { table: String::from_str(spec.table()), column }))
}

/// The statements that carry out `specs`, one for each spec and in their
/// order, provided the schema has every table and column that they name.
/// Otherwise nothing is planned, and the first spec that names something
/// missing is reported.
pub fn plan(specs: &Vec<ColumnSpec>, schema: &Vec<TableSchema>) -> (outcome: Result<
    Vec<String>,
    RewriteFailed,
>)
    ensures
        match outcome {
            Ok(statements) => {
                &&& forall|i: int|
                    0 <= i < specs.len() ==> resolves(#[trigger] models(specs@)[i], tables(schema@))
                &&& texts(statements@) == statements_of(models(specs@))
            },
            Err(failure) => exists|index: int|
                first_unresolved(models(specs@), tables(schema@), index) && failure@ == mismatch(
                    #[trigger] models(specs@)[index],
                    tables(schema@),
                ),
        },
{
    let mut statements: Vec<String> = Vec::new();
    let mut i: usize = 0;
    while i < specs.len()
        invariant
            i <= specs.len(),
            forall|k: int| 0 <= k < i ==> resolves(#[trigger] models(specs@)[k], tables(schema@)),
            texts(statements@) == statements_of(models(specs@)).take(i as int),
        decreases specs.len() - i,
    {
        match check(&specs[i], schema) {
            Ok(_) => {},
            Err(failure) => {
                assert(first_unresolved(models(specs@), tables(schema@), i as int));
                return Err(failure);
            },
        }
        let ghost wanted = statements_of(models(specs@));
        statements.push(specs[i].statement());
        assert(wanted.take(i + 1) =~= wanted.take(i as int).push(wanted[i as int]));
        i += 1;
    }
    Ok(statements)
}

/// The generic mode asks only for what is there: each of its targets
/// anonymizes a column that the schema has, in a table that is not the
/// database engine's own. A rewrite planned from them cannot fail on a
/// schema mismatch.
pub proof fn lemma_discovered_resolves(schema: Seq<TableSchemaModel>, index: int)
    requires
        0 <= index < discovered(schema).len(),
    ensures
        discovered(schema)[index] is Anonymize,
        !is_system_table(discovered(schema)[index].table()),
        resolves(discovered(schema)[index], schema),
{
    assert(schema.take(schema.len() as int) =~= schema);
    lemma_discovered_within(schema, schema.len() as int, index);
}

/// What the generic mode finds in the first `upto` tables names columns of
/// those tables.
proof fn lemma_discovered_within(schema: Seq<TableSchemaModel>, upto: int, index: int)
    requires
        0 <= upto <= schema.len(),
        0 <= index < discovered(schema.take(upto)).len(),
    ensures
        discovered(schema.take(upto))[index] is Anonymize,
        !is_system_table(discovered(schema.take(upto))[index].table()),
        resolves(discovered(schema.take(upto))[index], schema),
    decreases upto,
{
    let part = schema.take(upto);
    if upto > 0 {
        let earlier = discovered(part.drop_last());
        assert(part.drop_last() =~= schema.take(upto - 1));
        if index < earlier.len() {
            lemma_discovered_within(schema, upto - 1, index);
        } else {
            let table = schema[upto - 1];
            let column = table.columns[index - earlier.len()];
            assert(part.last() == table);
            assert(discovered(part)[index] == table_targets(table)[index - earlier.len()]);
            assert(table.columns.contains(column));
        }
    }
}

} // verus!
