//! The table metadata that the `SqlxDbTable` derive generates for a struct
//! with named fields: the table name, the id column, the columns and the
//! `SELECT` statements over them.

use vstd::prelude::*;
use vstd::string::*;
use crate::text::str_eq;

verus! {

/// A named field of the struct: its name and the names of its attributes
/// whose path is a single identifier.
#[derive(Clone, Debug, PartialEq, Eq)]
pub struct FieldDecl {
    pub name: String,
    pub attribute_idents: Vec<String>,
}

/// `s` in `table_case`: snake case with the last word pluralized.
pub uninterp spec fn table_case(s: Seq<char>) -> Seq<char>;

/// `s` in `SCREAMING_SNAKE_CASE`.
pub uninterp spec fn screaming_snake_case(s: Seq<char>) -> Seq<char>;

/// `inflector::cases::tablecase::to_table_case`; the contract names its
/// result.
#[verifier::external_body]
fn to_table_case(s: &str) -> (r: String)
    ensures
        r@ == table_case(s@),
{
    inflector::cases::tablecase::to_table_case(s)
}

/// `inflector::cases::screamingsnakecase::to_screaming_snake_case`; the
/// contract names its result.
#[verifier::external_body]
fn to_screaming_snake_case(s: &str) -> (r: String)
    ensures
        r@ == screaming_snake_case(s@),
{
    inflector::cases::screamingsnakecase::to_screaming_snake_case(s)
}

/// The names of the fields.
pub open spec fn field_names(fields: Seq<FieldDecl>) -> Seq<Seq<char>> {
    fields.map_values(|f: FieldDecl| f.name@)
}

/// Whether the field carries the attribute `#[id]`, the derive's helper
/// attribute that marks the id column.
pub open spec fn has_id_marker(field: FieldDecl) -> bool {
    exists|i: int| 0 <= i < field.attribute_idents@.len() && #[trigger] field.attribute_idents@[i]@
        == "id"@
}

/// The index of the first field that carries `#[id]`, if any.
pub open spec fn first_marked(fields: Seq<FieldDecl>) -> Option<int>
    decreases fields.len(),
{
    if fields.len() == 0 {
        None
    } else if has_id_marker(fields[0]) {
        Some(0)
    } else {
        match first_marked(fields.drop_first()) {
            Some(i) => Some(i + 1),
            None => None,
        }
    }
}

/// The name of the id column: the first field carrying `#[id]`, or the
/// first field when none does.
pub open spec fn id_column(fields: Seq<FieldDecl>) -> Seq<char> {
    match first_marked(fields) {
        Some(i) => fields[i].name@,
        None => fields[0].name@,
    }
}

/// The settings the derive works from.
#[derive(Clone, Debug, PartialEq, Eq)]
pub struct Config {
    pub crate_name: String,
    pub ident: String,
    pub named: Vec<FieldDecl>,
    pub id_column_name: String,
    pub model_schema_ident: String,
    pub table_name: String,
}

fn has_marker(field: &FieldDecl) -> (r: bool)
    ensures
        r == has_id_marker(*field),
{
    let mut i: usize = 0;
    while i < field.attribute_idents.len()
        invariant
            0 <= i <= field.attribute_idents@.len(),
            forall|j: int| 0 <= j < i ==> field.attribute_idents@[j]@ != "id"@,
        decreases field.attribute_idents@.len() - i,
    {
        if str_eq(field.attribute_idents[i].as_str(), "id") {
            return true;
        }
        i = i + 1;
    }
    false
}

proof fn lemma_first_marked_step(fields: Seq<FieldDecl>, i: int)
    requires
        0 <= i < fields.len(),
        forall|j: int| 0 <= j < i ==> !has_id_marker(#[trigger] fields[j]),
    ensures
        has_id_marker(fields[i]) ==> first_marked(fields) == Some(i),
        i == fields.len() - 1 && !has_id_marker(fields[i]) ==> first_marked(fields) is None,
    decreases i,
{
    let rest = fields.drop_first();
    if i > 0 {
        assert(!has_id_marker(fields[0]));
        assert(rest[i - 1] == fields[i]);
        assert forall|j: int| 0 <= j < i - 1 implies !has_id_marker(#[trigger] rest[j]) by {
            assert(rest[j] == fields[j + 1]);
        }
        lemma_first_marked_step(rest, i - 1);
    } else if fields.len() == 1 && !has_id_marker(fields[0]) {
        assert(rest.len() == 0);
        assert(first_marked(rest) is None);
    }
}

impl Config {
    /// The settings for the struct `ident` with the fields `named`: the id
    /// column is the first field carrying `#[id]`, or the first field when
    /// none does; the schema constant is named `<IDENT>_SCHEMA` in screaming snake
    /// case; the table is `ident` in table case.
    pub fn new(crate_name: String, ident: String, named: Vec<FieldDecl>) -> (r: Config)
        requires
            named@.len() > 0,
        ensures
            r.crate_name == crate_name,
            r.ident == ident,
            r.named == named,
            r.id_column_name@ == id_column(named@),
            r.model_schema_ident@ == screaming_snake_case(ident@) + "_SCHEMA"@,
            r.table_name@ == table_case(ident@),
    {
        let mut id_index: usize = 0;
        let mut i: usize = 0;
        let mut found = false;
        while i < named.len()
            invariant
                0 <= i <= named@.len(),
                named@.len() > 0,
                !found ==> forall|j: int| 0 <= j < i ==> !has_id_marker(#[trigger] named@[j]),
                !found ==> id_index == 0,
                found ==> id_index < named@.len() && first_marked(named@) == Some(id_index as int),
                !found && i == named@.len() ==> first_marked(named@) is None,
            decreases named@.len() - i,
        {
            if !found {
                if has_marker(&named[i]) {
                    proof {
                        lemma_first_marked_step(named@, i as int);
                    }
                    id_index = i;
                    found = true;
                } else if i == named.len() - 1 {
                    proof {
                        lemma_first_marked_step(named@, i as int);
                    }
                }
            }
            i = i + 1;
        }
        let id_column_name = named[id_index].name.clone();
        let mut model_schema_ident = to_screaming_snake_case(ident.as_str());
        model_schema_ident.append("_SCHEMA");
        let table_name = to_table_case(ident.as_str());
        Config { crate_name, ident, named, id_column_name, model_schema_ident, table_name }
    }
}

/// The column list of a query over `table`: each column qualified by the
/// table, separated by `, `.
pub open spec fn column_list(table: Seq<char>, columns: Seq<Seq<char>>) -> Seq<char>
    decreases columns.len(),
{
    if columns.len() == 0 {
        Seq::empty()
    } else if columns.len() == 1 {
        table + "."@ + columns[0]
    } else {
        column_list(table, columns.drop_last()) + ", "@ + table + "."@ + columns.last()
    }
}

/// The statement selecting every row.
pub open spec fn select_sql_text(table: Seq<char>, columns: Seq<Seq<char>>) -> Seq<char> {
    "SELECT "@ + column_list(table, columns) + " FROM "@ + table
}

/// The statement selecting the row with a given id.
pub open spec fn select_by_id_sql_text(table: Seq<char>, columns: Seq<Seq<char>>, id: Seq<char>) -> Seq<
    char,
> {
    "SELECT "@ + column_list(table, columns) + " FROM "@ + table + " WHERE "@ + table + "."@ + id
        + " = ?"@
}

fn build_column_list(table: &str, fields: &Vec<FieldDecl>) -> (r: String)
    ensures
        r@ == column_list(table@, field_names(fields@)),
{
    let mut list = String::new();
    let mut i: usize = 0;
    while i < fields.len()
        invariant
            0 <= i <= fields@.len(),
            list@ == column_list(table@, field_names(fields@).take(i as int)),
        decreases fields@.len() - i,
    {
        let ghost before = field_names(fields@).take(i as int);
        let ghost after = field_names(fields@).take(i + 1);
        assert(after.drop_last() =~= before);
        assert(after.last() == fields@[i as int].name@);
        if i > 0 {
            list.append(", ");
        } else {
            assert(before =~= Seq::<Seq<char>>::empty());
        }
        list.append(table);
        list.append(".");
        list.append(fields[i].name.as_str());
        assert(list@ =~= column_list(table@, after));
        i = i + 1;
    }
    assert(field_names(fields@).take(fields@.len() as int) =~= field_names(fields@));
    list
}

/// The statement selecting every row and the statement selecting the row
/// with a given id, over the configured table and columns.
pub fn build_sql_queries(config: &Config) -> (r: (String, String))
    ensures
        r.0@ == select_sql_text(config.table_name@, field_names(config.named@)),
        r.1@ == select_by_id_sql_text(
            config.table_name@,
            field_names(config.named@),
            config.id_column_name@,
        ),
{
    let table = config.table_name.as_str();
    let columns = build_column_list(table, &config.named);
    let mut select_sql = String::from_str("SELECT ");
    select_sql.append(columns.as_str());
    select_sql.append(" FROM ");
    select_sql.append(table);
    let mut select_by_id_sql = String::from_str("SELECT ");
    select_by_id_sql.append(columns.as_str());
    select_by_id_sql.append(" FROM ");
    select_by_id_sql.append(table);
    select_by_id_sql.append(" WHERE ");
    select_by_id_sql.append(table);
    select_by_id_sql.append(".");
    select_by_id_sql.append(config.id_column_name.as_str());
    select_by_id_sql.append(" = ?");
    (select_sql, select_by_id_sql)
}

/// The generated table metadata.
#[derive(Clone, Debug, PartialEq, Eq)]
pub struct StaticSchema {
    pub model_schema_ident: String,
    pub table_name: String,
    pub id_column_name: String,
    pub columns: Vec<String>,
    pub select_sql: String,
    pub select_by_id_sql: String,
}

/// The table metadata of the configured struct: its schema constant's name,
/// table, id column, the field names as columns (in order) and the two
/// `SELECT` statements.
pub fn build_static_schema(config: &Config) -> (r: StaticSchema)
    ensures
        r.model_schema_ident@ == config.model_schema_ident@,
        r.table_name@ == config.table_name@,
        r.id_column_name@ == config.id_column_name@,
        r.columns@.len() == config.named@.len(),
        forall|i: int| 0 <= i < r.columns@.len() ==> #[trigger] r.columns@[i]@ == config.named@[i].name@,
        r.select_sql@ == select_sql_text(config.table_name@, field_names(config.named@)),
        r.select_by_id_sql@ == select_by_id_sql_text(
            config.table_name@,
            field_names(config.named@),
            config.id_column_name@,
        ),
{
    let mut columns: Vec<String> = Vec::new();
    let mut i: usize = 0;
    while i < config.named.len()
        invariant
            0 <= i <= config.named@.len(),
            columns@.len() == i,
            forall|j: int| 0 <= j < i ==> #[trigger] columns@[j]@ == config.named@[j].name@,
        decreases config.named@.len() - i,
    {
        columns.push(config.named[i].name.clone());
        i = i + 1;
    }
    let (select_sql, select_by_id_sql) = build_sql_queries(config);
    StaticSchema {
        model_schema_ident: config.model_schema_ident.clone(),
        table_name: config.table_name.clone(),
        id_column_name: config.id_column_name.clone(),
        columns,
        select_sql,
        select_by_id_sql,
    }
}

/// The table metadata that `#[derive(SqlxDbTable)]` generates for the struct
/// `ident` with the named fields `named`, and the index of the id field
/// (whose type becomes the table's id type).
#[verifier::loop_isolation(false)]
pub fn sqlx_db_table_macro(crate_name: String, ident: String, named: Vec<FieldDecl>) -> (r: (
    StaticSchema,
    usize,
))
    requires
        named@.len() > 0,
    ensures
        r.0.table_name@ == table_case(ident@),
        r.0.model_schema_ident@ == screaming_snake_case(ident@) + "_SCHEMA"@,
        r.0.id_column_name@ == id_column(named@),
        r.0.columns@.len() == named@.len(),
        forall|i: int| 0 <= i < r.0.columns@.len() ==> #[trigger] r.0.columns@[i]@ == named@[i].name@,
        r.0.select_sql@ == select_sql_text(table_case(ident@), field_names(named@)),
        r.0.select_by_id_sql@ == select_by_id_sql_text(
            table_case(ident@),
            field_names(named@),
            id_column(named@),
        ),
        r.1 < named@.len(),
        named@[r.1 as int].name@ == id_column(named@),
        forall|j: int| 0 <= j < r.1 ==> named@[j].name@ != id_column(named@),
{
    let config = Config::new(crate_name, ident, named);
    let schema = build_static_schema(&config);
    let mut i: usize = 0;
    let ghost id = id_column(config.named@);
    proof {
        let k = match first_marked(config.named@) {
            Some(k) => k,
            None => 0,
        };
        lemma_first_marked_in_range(config.named@);
        assert(config.named@[k].name@ == id);
    }
    while i < config.named.len()
        invariant
            0 <= i <= config.named@.len(),
            id == id_column(config.named@),
            config.id_column_name@ == id,
            exists|k: int| i <= k < config.named@.len() && #[trigger] config.named@[k].name@ == id,
            forall|j: int| 0 <= j < i ==> config.named@[j].name@ != id,
        decreases config.named@.len() - i,
    {
        if str_eq(config.named[i].name.as_str(), config.id_column_name.as_str()) {
            return (schema, i);
        }
        i = i + 1;
    }
    proof {
        assert(false);
    }
    (schema, 0)
}

proof fn lemma_first_marked_in_range(fields: Seq<FieldDecl>)
    ensures
        first_marked(fields) matches Some(i) ==> 0 <= i < fields.len(),
    decreases fields.len(),
{
    if fields.len() > 0 && !has_id_marker(fields[0]) {
        lemma_first_marked_in_range(fields.drop_first());
    }
}

/// The statement selecting by id is the statement selecting every row,
/// narrowed by `WHERE <table>.<id> = ?`.
pub proof fn lemma_select_by_id_extends_select(table: Seq<char>, columns: Seq<Seq<char>>, id: Seq<char>)
    ensures
        select_by_id_sql_text(table, columns, id) == select_sql_text(table, columns) + " WHERE "@
            + table + "."@ + id + " = ?"@,
{
    assert(select_by_id_sql_text(table, columns, id) =~= select_sql_text(table, columns)
        + " WHERE "@ + table + "."@ + id + " = ?"@);
}

/// The id column is always one of the struct's fields.
pub proof fn lemma_id_column_is_a_field(fields: Seq<FieldDecl>)
    requires
        fields.len() > 0,
    ensures
        exists|i: int| 0 <= i < fields.len() && #[trigger] fields[i].name@ == id_column(fields),
{
    lemma_first_marked_in_range(fields);
    match first_marked(fields) {
        Some(k) => assert(fields[k].name@ == id_column(fields)),
        None => assert(fields[0].name@ == id_column(fields)),
    }
}

} // verus!
