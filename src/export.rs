//! Text exports of a row snapshot: CSV, pretty JSON and SQL.
//!
//! Every domain describes its rows with a `Schema`; the writers here are
//! shared by all domains and each output is a function of the schema and the
//! rows alone.
use vstd::prelude::*;
use vstd::string::{StrSliceExecFns, StringExecFns};
use crate::domain::Domain;
use crate::json::{
    json_bool, json_insert, json_list, json_map, json_null, json_object, json_text as json_text_value,
    members_of, model_of, pretty_json_of, pretty_text, upsert, JsonModel,
};
use crate::text::{
    bool_str, bool_text, join, join_texts, lemma_views_push, views,
};

verus! {

/// One generated identifier with its secondary fields.
///
/// `values` follows the order of the schema's keys; the first one is the
/// primary value. `None` is a field that the registry left empty.
#[derive(Clone, Debug, PartialEq, Eq)]
pub struct ResultRow {
    pub values: Vec<Option<String>>,
    pub valid: bool,
    /// The text that `valid` was computed on: the primary value, or for a
    /// bank account the full number with its routing code. No export shows it.
    pub checked: String,
}

/// How the rows of one domain are named and laid out in the exports.
#[derive(Clone, Debug, PartialEq, Eq)]
pub struct Schema {
    /// File name stem and SQL table name, e.g. `ibans`.
    pub stem: String,
    /// JSON field names, one for each value of a row.
    pub keys: Vec<String>,
    /// The CSV header line, without its line break.
    pub csv_header: String,
    /// Which values the CSV lines show, in order, before the validity column.
    pub csv_cols: Vec<usize>,
    /// SQL column names, before the validity column.
    pub sql_names: Vec<String>,
    /// Which value fills each SQL column.
    pub sql_cols: Vec<usize>,
}

impl Schema {
    pub open spec fn wf(&self) -> bool {
        &&& self.keys@.len() >= 1
        &&& forall|j: int| 0 <= j < self.csv_cols@.len() ==> #[trigger] self.csv_cols@[j] < self.keys@.len()
        &&& self.sql_names@.len() == self.sql_cols@.len()
        &&& forall|j: int| 0 <= j < self.sql_cols@.len() ==> #[trigger] self.sql_cols@[j] < self.keys@.len()
    }

    /// A row that fits this schema.
    pub open spec fn fits(&self, row: ResultRow) -> bool {
        row.values@.len() == self.keys@.len()
    }

    pub open spec fn fits_all(&self, rows: Seq<ResultRow>) -> bool {
        forall|k: int| 0 <= k < rows.len() ==> self.fits(#[trigger] rows[k])
    }
}

/// The text of value `c` of a row; an empty field is written as nothing.
pub open spec fn cell(row: ResultRow, c: int) -> Seq<char> {
    match row.values@[c] {
        Some(s) => s@,
        None => Seq::empty(),
    }
}

pub open spec fn yes_no(b: bool) -> Seq<char> {
    if b { "Yes"@ } else { "No"@ }
}

/// The fields of one CSV line.
pub open spec fn csv_cells(schema: Schema, row: ResultRow) -> Seq<Seq<char>> {
    schema.csv_cols@.map_values(|c: usize| cell(row, c as int)).push(yes_no(row.valid))
}

/// One CSV line: the fields joined by commas, with no quoting.
pub open spec fn csv_line(schema: Schema, row: ResultRow) -> Seq<char> {
    join(csv_cells(schema, row), ","@) + "\n"@
}

/// The CSV export: the header line, then one line per row.
pub open spec fn csv_of(schema: Schema, rows: Seq<ResultRow>) -> Seq<char> {
    schema.csv_header@ + "\n"@ + join(rows.map_values(|r: ResultRow| csv_line(schema, r)), ""@)
}

/// The SQL column declarations.
pub open spec fn sql_decls(schema: Schema) -> Seq<Seq<char>> {
    schema.sql_names@.map_values(|n: String| n@ + " TEXT"@).push("valid BOOLEAN"@)
}

/// The SQL column list of an insert.
pub open spec fn sql_columns(schema: Schema) -> Seq<Seq<char>> {
    views(schema.sql_names@).push("valid"@)
}

/// The SQL literals of a row: text quoted as it is, validity as a boolean.
pub open spec fn sql_values(schema: Schema, row: ResultRow) -> Seq<Seq<char>> {
    schema.sql_cols@.map_values(|c: usize| "'"@ + cell(row, c as int) + "'"@).push(
        bool_text(row.valid),
    )
}

pub open spec fn sql_create(schema: Schema) -> Seq<char> {
    "CREATE TABLE IF NOT EXISTS "@ + schema.stem@ + " ("@ + join(sql_decls(schema), ", "@)
        + ");\n"@
}

pub open spec fn sql_insert(schema: Schema, row: ResultRow) -> Seq<char> {
    "INSERT INTO "@ + schema.stem@ + " ("@ + join(sql_columns(schema), ", "@) + ") VALUES ("@
        + join(sql_values(schema, row), ", "@) + ");\n"@
}

/// The SQL export: the table, then one insert per row.
pub open spec fn sql_of(schema: Schema, rows: Seq<ResultRow>) -> Seq<char> {
    sql_create(schema) + join(rows.map_values(|r: ResultRow| sql_insert(schema, r)), ""@)
}

/// The JSON value of a field: a string, or `null` for an empty field.
pub open spec fn field_model(v: Option<String>) -> JsonModel {
    match v {
        Some(s) => JsonModel::Text(s@),
        None => JsonModel::Null,
    }
}

/// The members of a row's object after its first `n` fields, each under its key.
pub open spec fn row_members(schema: Schema, row: ResultRow, n: nat) -> Seq<(Seq<char>, JsonModel)>
    decreases n,
{
    if n == 0 {
        Seq::empty()
    } else {
        upsert(
            row_members(schema, row, (n - 1) as nat),
            schema.keys@[n - 1]@,
            field_model(row.values@[n - 1]),
        )
    }
}

/// The object of one row: its fields under the schema's keys, then `valid`.
pub open spec fn row_model(schema: Schema, row: ResultRow) -> JsonModel {
    JsonModel::Object(
        upsert(row_members(schema, row, schema.keys@.len()), "valid"@, JsonModel::Bool(row.valid)),
    )
}

/// The JSON export as a value: an array with one object per row, in order.
pub open spec fn rows_model(schema: Schema, rows: Seq<ResultRow>) -> JsonModel {
    JsonModel::List(rows.map_values(|r: ResultRow| row_model(schema, r)))
}

/// The JSON export: the array of row objects, pretty-printed by serde_json.
pub open spec fn json_of(schema: Schema, rows: Seq<ResultRow>) -> Seq<char> {
    pretty_json_of(rows_model(schema, rows))
}

fn cell_text(row: &ResultRow, c: usize) -> (r: String)
    requires
        c < row.values@.len(),
    ensures
        r@ == cell(*row, c as int),
{
    match &row.values[c] {
        Some(s) => s.clone(),
        None => String::new(),
    }
}

fn yes_no_str(b: bool) -> (r: &'static str)
    ensures
        r@ == yes_no(b),
{
    if b { "Yes" } else { "No" }
}

/// One CSV line of `row`.
pub fn csv_line_text(schema: &Schema, row: &ResultRow) -> (r: String)
    requires
        schema.wf(),
        schema.fits(*row),
    ensures
        r@ == csv_line(*schema, *row),
{
    let ghost want = schema.csv_cols@.map_values(|c: usize| cell(*row, c as int));
    let mut cells: Vec<String> = Vec::new();
    let mut j: usize = 0;
    while j < schema.csv_cols.len()
        invariant
            schema.wf(),
            schema.fits(*row),
            j <= schema.csv_cols@.len(),
            want == schema.csv_cols@.map_values(|c: usize| cell(*row, c as int)),
            views(cells@) =~= want.take(j as int),
        decreases schema.csv_cols@.len() - j,
    {
        let c = schema.csv_cols[j];
        assert(schema.csv_cols@[j as int] < schema.keys@.len());
        let t = cell_text(row, c);
        proof {
            lemma_views_push(cells@, t);
            assert(want.take(j as int + 1) =~= want.take(j as int).push(want[j as int]));
        }
        cells.push(t);
        j = j + 1;
    }
    let yn = yes_no_str(row.valid).to_owned();
    proof {
        lemma_views_push(cells@, yn);
        assert(want.take(schema.csv_cols@.len() as int) =~= want);
    }
    cells.push(yn);
    assert(views(cells@) =~= csv_cells(*schema, *row));
    let mut line = join_texts(&cells, ",");
    line.append("\n");
    line
}

/// The CSV export of `rows`.
pub fn csv_text(schema: &Schema, rows: &Vec<ResultRow>) -> (r: String)
    requires
        schema.wf(),
        schema.fits_all(rows@),
    ensures
        r@ == csv_of(*schema, rows@),
{
    let ghost want = rows@.map_values(|r: ResultRow| csv_line(*schema, r));
    let mut lines: Vec<String> = Vec::new();
    let mut k: usize = 0;
    while k < rows.len()
        invariant
            schema.wf(),
            schema.fits_all(rows@),
            k <= rows@.len(),
            want == rows@.map_values(|r: ResultRow| csv_line(*schema, r)),
            views(lines@) =~= want.take(k as int),
        decreases rows@.len() - k,
    {
        assert(schema.fits(rows@[k as int]));
        let t = csv_line_text(schema, &rows[k]);
        proof {
            lemma_views_push(lines@, t);
            assert(want.take(k as int + 1) =~= want.take(k as int).push(want[k as int]));
        }
        lines.push(t);
        k = k + 1;
    }
    assert(want.take(rows@.len() as int) =~= want);
    let mut out = schema.csv_header.clone();
    out.append("\n");
    out.append(join_texts(&lines, "").as_str());
    out
}

fn sql_create_text(schema: &Schema) -> (r: String)
    requires
        schema.wf(),
    ensures
        r@ == sql_create(*schema),
{
    let ghost want = schema.sql_names@.map_values(|n: String| n@ + " TEXT"@);
    let mut decls: Vec<String> = Vec::new();
    let mut j: usize = 0;
    while j < schema.sql_names.len()
        invariant
            j <= schema.sql_names@.len(),
            want == schema.sql_names@.map_values(|n: String| n@ + " TEXT"@),
            views(decls@) =~= want.take(j as int),
        decreases schema.sql_names@.len() - j,
    {
        let mut t = schema.sql_names[j].clone();
        t.append(" TEXT");
        proof {
            lemma_views_push(decls@, t);
            assert(want.take(j as int + 1) =~= want.take(j as int).push(want[j as int]));
        }
        decls.push(t);
        j = j + 1;
    }
    let last = "valid BOOLEAN".to_owned();
    proof {
        lemma_views_push(decls@, last);
        assert(want.take(schema.sql_names@.len() as int) =~= want);
    }
    decls.push(last);
    assert(views(decls@) =~= sql_decls(*schema));
    let mut out = "CREATE TABLE IF NOT EXISTS ".to_owned();
    out.append(schema.stem.as_str());
    out.append(" (");
    out.append(join_texts(&decls, ", ").as_str());
    out.append(");\n");
    out
}

fn sql_column_list(schema: &Schema) -> (r: String)
    ensures
        r@ == join(sql_columns(*schema), ", "@),
{
    let mut names = schema.sql_names.clone();
    proof {
        assert(names@ == schema.sql_names@);
    }
    let last = "valid".to_owned();
    proof {
        lemma_views_push(names@, last);
    }
    names.push(last);
    join_texts(&names, ", ")
}

fn sql_insert_text(schema: &Schema, columns: &String, row: &ResultRow) -> (r: String)
    requires
        schema.wf(),
        schema.fits(*row),
        columns@ == join(sql_columns(*schema), ", "@),
    ensures
        r@ == sql_insert(*schema, *row),
{
    let ghost want = schema.sql_cols@.map_values(|c: usize| "'"@ + cell(*row, c as int) + "'"@);
    let mut vals: Vec<String> = Vec::new();
    let mut j: usize = 0;
    while j < schema.sql_cols.len()
        invariant
            schema.wf(),
            schema.fits(*row),
            j <= schema.sql_cols@.len(),
            want == schema.sql_cols@.map_values(|c: usize| "'"@ + cell(*row, c as int) + "'"@),
            views(vals@) =~= want.take(j as int),
        decreases schema.sql_cols@.len() - j,
    {
        let c = schema.sql_cols[j];
        assert(schema.sql_cols@[j as int] < schema.keys@.len());
        let mut t = "'".to_owned();
        t.append(cell_text(row, c).as_str());
        t.append("'");
        proof {
            lemma_views_push(vals@, t);
            assert(want.take(j as int + 1) =~= want.take(j as int).push(want[j as int]));
        }
        vals.push(t);
        j = j + 1;
    }
    let last = bool_str(row.valid).to_owned();
    proof {
        lemma_views_push(vals@, last);
        assert(want.take(schema.sql_cols@.len() as int) =~= want);
    }
    vals.push(last);
    assert(views(vals@) =~= sql_values(*schema, *row));
    let mut out = "INSERT INTO ".to_owned();
    out.append(schema.stem.as_str());
    out.append(" (");
    out.append(columns.as_str());
    out.append(") VALUES (");
    out.append(join_texts(&vals, ", ").as_str());
    out.append(");\n");
    out
}

/// The SQL export of `rows`.
pub fn sql_text(schema: &Schema, rows: &Vec<ResultRow>) -> (r: String)
    requires
        schema.wf(),
        schema.fits_all(rows@),
    ensures
        r@ == sql_of(*schema, rows@),
{
    let columns = sql_column_list(schema);
    let ghost want = rows@.map_values(|r: ResultRow| sql_insert(*schema, r));
    let mut lines: Vec<String> = Vec::new();
    let mut k: usize = 0;
    while k < rows.len()
        invariant
            schema.wf(),
            schema.fits_all(rows@),
            columns@ == join(sql_columns(*schema), ", "@),
            k <= rows@.len(),
            want == rows@.map_values(|r: ResultRow| sql_insert(*schema, r)),
            views(lines@) =~= want.take(k as int),
        decreases rows@.len() - k,
    {
        assert(schema.fits(rows@[k as int]));
        let t = sql_insert_text(schema, &columns, &rows[k]);
        proof {
            lemma_views_push(lines@, t);
            assert(want.take(k as int + 1) =~= want.take(k as int).push(want[k as int]));
        }
        lines.push(t);
        k = k + 1;
    }
    assert(want.take(rows@.len() as int) =~= want);
    let mut out = sql_create_text(schema);
    out.append(join_texts(&lines, "").as_str());
    out
}

fn field_value(v: &Option<String>) -> (r: serde_json::Value)
    ensures
        model_of(r) == field_model(*v),
{
    match v {
        Some(s) => json_text_value(s.as_str()),
        None => json_null(),
    }
}

fn row_value(schema: &Schema, row: &ResultRow) -> (r: serde_json::Value)
    requires
        schema.fits(*row),
    ensures
        model_of(r) == row_model(*schema, *row),
{
    let mut m = json_map();
    let mut i: usize = 0;
    while i < schema.keys.len()
        invariant
            schema.fits(*row),
            i <= schema.keys@.len(),
            members_of(m) == row_members(*schema, *row, i as nat),
        decreases schema.keys@.len() - i,
    {
        json_insert(&mut m, schema.keys[i].clone(), field_value(&row.values[i]));
        i = i + 1;
    }
    json_insert(&mut m, "valid".to_owned(), json_bool(row.valid));
    json_object(m)
}

/// The JSON export of `rows`.
pub fn json_text(schema: &Schema, rows: &Vec<ResultRow>) -> (r: String)
    requires
        schema.fits_all(rows@),
    ensures
        r@ == json_of(*schema, rows@),
{
    let ghost want = rows@.map_values(|r: ResultRow| row_model(*schema, r));
    let mut items: Vec<serde_json::Value> = Vec::new();
    let mut k: usize = 0;
    while k < rows.len()
        invariant
            schema.fits_all(rows@),
            k <= rows@.len(),
            want == rows@.map_values(|r: ResultRow| row_model(*schema, r)),
            items@.map_values(|v: serde_json::Value| model_of(v)) =~= want.take(k as int),
        decreases rows@.len() - k,
    {
        assert(schema.fits(rows@[k as int]));
        let v = row_value(schema, &rows[k]);
        let ghost before = items@;
        items.push(v);
        assert(items@ == before.push(v));
        assert(items@.map_values(|v: serde_json::Value| model_of(v)) =~= before.map_values(
            |v: serde_json::Value| model_of(v),
        ).push(model_of(v)));
        assert(want.take(k as int + 1) =~= want.take(k as int).push(want[k as int]));
        k = k + 1;
    }
    assert(want.take(rows@.len() as int) =~= want);
    let list = json_list(items);
    pretty_text(&list)
}

/// The three export formats.
#[derive(Clone, Copy, PartialEq, Eq, Structural, Debug)]
pub enum Format {
    Csv,
    Json,
    Sql,
}

pub open spec fn export_of(schema: Schema, format: Format, rows: Seq<ResultRow>) -> Seq<char> {
    match format {
        Format::Csv => csv_of(schema, rows),
        Format::Json => json_of(schema, rows),
        Format::Sql => sql_of(schema, rows),
    }
}

pub open spec fn extension_of(format: Format) -> Seq<char> {
    match format {
        Format::Csv => ".csv"@,
        Format::Json => ".json"@,
        Format::Sql => ".sql"@,
    }
}

pub open spec fn mime_of(format: Format) -> Seq<char> {
    match format {
        Format::Csv => "text/csv;charset=utf-8;"@,
        Format::Json => "application/json;charset=utf-8;"@,
        Format::Sql => "text/plain;charset=utf-8;"@,
    }
}

impl Format {
    /// The export of `rows` in this format.
    pub fn render(&self, schema: &Schema, rows: &Vec<ResultRow>) -> (r: String)
        requires
            schema.wf(),
            schema.fits_all(rows@),
        ensures
            r@ == export_of(*schema, *self, rows@),
    {
        match self {
            Format::Csv => csv_text(schema, rows),
            Format::Json => json_text(schema, rows),
            Format::Sql => sql_text(schema, rows),
        }
    }

    /// The file name of an export: the schema's stem and the format's extension.
    pub fn file_name(&self, schema: &Schema) -> (r: String)
        ensures
            r@ == schema.stem@ + extension_of(*self),
    {
        let mut out = schema.stem.clone();
        out.append(
            match self {
                Format::Csv => ".csv",
                Format::Json => ".json",
                Format::Sql => ".sql",
            },
        );
        out
    }

    /// The MIME type of an export.
    pub fn mime(&self) -> (r: &'static str)
        ensures
            r@ == mime_of(*self),
    {
        match self {
            Format::Csv => "text/csv;charset=utf-8;",
            Format::Json => "application/json;charset=utf-8;",
            Format::Sql => "text/plain;charset=utf-8;",
        }
    }
}

/// The line that "copy all" writes for a row: the spaced or plain IBAN, a
/// bank account with its routing code in parentheses when it has one, else
/// the primary value.
pub open spec fn clipboard_line(d: Domain, spaced: bool, row: ResultRow) -> Seq<char> {
    if d == Domain::Iban && spaced {
        cell(row, 1)
    } else if d == Domain::BankAccount && cell(row, 1).len() > 0 {
        cell(row, 0) + " ("@ + cell(row, 1) + ")"@
    } else {
        cell(row, 0)
    }
}

/// Rows whose fields the clipboard text reads.
pub open spec fn copyable(rows: Seq<ResultRow>) -> bool {
    forall|k: int| 0 <= k < rows.len() ==> (#[trigger] rows[k]).values@.len() >= 2
}

fn clipboard_line_text(d: Domain, spaced: bool, row: &ResultRow) -> (r: String)
    requires
        row.values@.len() >= 2,
    ensures
        r@ == clipboard_line(d, spaced, *row),
{
    if d == Domain::Iban && spaced {
        cell_text(row, 1)
    } else {
        let first = cell_text(row, 0);
        let second = cell_text(row, 1);
        if d == Domain::BankAccount && second.unicode_len() > 0 {
            let mut out = first;
            out.append(" (");
            out.append(second.as_str());
            out.append(")");
            out
        } else {
            first
        }
    }
}

/// The text that "copy all" puts on the clipboard: one line per row.
pub fn clipboard_text(d: Domain, spaced: bool, rows: &Vec<ResultRow>) -> (r: String)
    requires
        copyable(rows@),
    ensures
        r@ == join(rows@.map_values(|row: ResultRow| clipboard_line(d, spaced, row)), "\n"@),
{
    let ghost want = rows@.map_values(|row: ResultRow| clipboard_line(d, spaced, row));
    let mut lines: Vec<String> = Vec::new();
    let mut k: usize = 0;
    while k < rows.len()
        invariant
            copyable(rows@),
            k <= rows@.len(),
            want == rows@.map_values(|row: ResultRow| clipboard_line(d, spaced, row)),
            views(lines@) =~= want.take(k as int),
        decreases rows@.len() - k,
    {
        assert(rows@[k as int].values@.len() >= 2);
        let t = clipboard_line_text(d, spaced, &rows[k]);
        proof {
            lemma_views_push(lines@, t);
            assert(want.take(k as int + 1) =~= want.take(k as int).push(want[k as int]));
        }
        lines.push(t);
        k = k + 1;
    }
    assert(want.take(rows@.len() as int) =~= want);
    join_texts(&lines, "\n")
}

} // verus!
