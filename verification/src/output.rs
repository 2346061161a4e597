//! Turning API responses into what the terminal shows: JSON, tables, CSV.
use vstd::prelude::*;

use crate::error::CliError;
use crate::json::{get_spec, json_view, member, Json, JsonNumber, JsonV, NumberV};
use crate::text::{decimal, i64_to_string, signed_decimal, u64_to_string};

verus! {

/// How command output is printed.
#[derive(Debug, PartialEq, Eq)]
pub enum OutputFormat {
    Json,
    Table,
    Csv,
}

impl Default for OutputFormat {
    fn default() -> (r: OutputFormat)
        ensures
            r is Json,
    {
        OutputFormat::Json
    }
}

impl Clone for OutputFormat {
    fn clone(&self) -> (r: OutputFormat)
        ensures
            r == *self,
    {
        match self {
            OutputFormat::Json => OutputFormat::Json,
            OutputFormat::Table => OutputFormat::Table,
            OutputFormat::Csv => OutputFormat::Csv,
        }
    }
}

impl Copy for OutputFormat {}

/// The contents of a list of values.
pub open spec fn seq_views(v: Seq<Json>) -> Seq<JsonV> {
    v.map_values(|j: Json| j@)
}

/// The view of an array is the list of its items' views.
pub proof fn lemma_array_view(items: Vec<Json>)
    ensures
        json_view(Json::Array(items)) == JsonV::Array(seq_views(items@)),
{
    assert(json_view(Json::Array(items))->Array_0 =~= seq_views(items@));
}

/// The first member of an object whose value is an array.
pub open spec fn first_array(entries: Seq<(Seq<char>, JsonV)>) -> Option<Seq<JsonV>>
    decreases entries.len(),
{
    if entries.len() == 0 {
        None
    } else {
        match entries[0].1 {
            JsonV::Array(items) => Some(items),
            _ => first_array(entries.drop_first()),
        }
    }
}

/// The rows a response holds: the value itself when it is an array, else the
/// `data` member when that is an array, else the first array member.
pub open spec fn extract_array_spec(value: JsonV) -> Option<Seq<JsonV>> {
    match value {
        JsonV::Array(items) => Some(items),
        JsonV::Object(entries) => match member(entries, "data"@) {
            Some(JsonV::Array(rows)) => Some(rows),
            _ => first_array(entries),
        },
        _ => None,
    }
}

/// Finds the rows of a list response.
pub fn extract_array(value: &Json) -> (r: Option<&Vec<Json>>)
    ensures
        r is None <==> extract_array_spec(value@) is None,
        r matches Some(rows) ==> extract_array_spec(value@) == Some(seq_views(rows@)),
{
    match value {
        Json::Array(items) => {
            proof { lemma_array_view(*items); }
            Some(items)
        },
        Json::Object(entries) => {
            let ghost view = json_view(*value)->Object_0;
            match value.get("data") {
                Some(Json::Array(rows)) => {
                    proof { lemma_array_view(*rows); }
                    return Some(rows);
                },
                _ => {},
            }
            let mut i: usize = 0;
            assert(view.subrange(0, view.len() as int) == view);
            assert(extract_array_spec(value@) == first_array(view));
            while i < entries.len()
                invariant
                    view == json_view(*value)->Object_0,
                    extract_array_spec(value@) == first_array(view),
                    view.len() == entries@.len(),
                    forall|k: int| 0 <= k < view.len() ==> view[k] == (#[trigger] entries@[k].0@, json_view(entries@[k].1)),
                    i <= view.len(),
                    first_array(view) == first_array(view.subrange(i as int, view.len() as int)),
                decreases view.len() - i,
            {
                let ghost rest = view.subrange(i as int, view.len() as int);
                assert(rest.drop_first() == view.subrange(i + 1, view.len() as int));
                assert(rest[0] == view[i as int]);
                assert(view[i as int] == (entries@[i as int].0@, json_view(entries@[i as int].1)));
                match &entries[i].1 {
                    Json::Array(items) => {
                        proof {
                            lemma_array_view(*items);
                            assert(json_view(entries@[i as int].1) == JsonV::Array(seq_views(items@)));
                        }
                        return Some(items);
                    },
                    _ => {},
                }
                i = i + 1;
            }
            None
        },
        _ => None,
    }
}

/// What is shown of a response: its `data` member when it has one.
pub fn display_payload(value: &Json) -> (r: &Json)
    ensures
        r@ == match get_spec(value@, "data"@) {
            Some(d) => d,
            None => value@,
        },
{
    match value.get("data") {
        Some(d) => d,
        None => value,
    }
}

/// A member that is a non-negative integer, as `Value::as_u64` reads it.
pub open spec fn field_u64(value: JsonV, key: Seq<char>) -> Option<u64> {
    match get_spec(value, key) {
        Some(JsonV::Number(NumberV::PosInt(n))) => Some(n),
        _ => None,
    }
}

/// A member that is a non-negative integer.
fn get_u64(value: &Json, key: &str) -> (r: Option<u64>)
    ensures
        r == field_u64(value@, key@),
{
    match value.get(key) {
        Some(Json::Number(JsonNumber::PosInt(n))) => Some(*n),
        _ => None,
    }
}

/// `a / b` rounded up.
pub open spec fn ceil_div(a: nat, b: nat) -> nat {
    if a % b == 0 { a / b } else { a / b + 1 }
}

/// The page size a paginated response reports, defaulting to the total
/// (at least one).
pub open spec fn page_size(value: JsonV) -> u64 {
    match field_u64(value, "per_page"@) {
        Some(p) => p,
        None => {
            let total = field_u64(value, "total"@)->Some_0;
            if total >= 1 { total } else { 1 }
        },
    }
}

/// The pagination note for a list response, when it reports `page` and
/// `total`: `Page {page}/{pages} ({total} total)`.
pub open spec fn pagination_spec(value: JsonV) -> Option<Seq<char>> {
    match (field_u64(value, "page"@), field_u64(value, "total"@)) {
        (Some(page), Some(total)) => Some(
            "Page "@ + decimal(page as nat) + "/"@ + decimal(ceil_div(total as nat, page_size(value) as nat))
                + " ("@ + decimal(total as nat) + " total)"@,
        ),
        _ => None,
    }
}

/// The pagination note for a list response. A response whose `per_page` is
/// zero has no page count (the count would divide by zero), so it is not
/// accepted.
pub fn pagination_meta(value: &Json) -> (r: Option<String>)
    requires
        !(field_u64(value@, "page"@) is Some && field_u64(value@, "total"@) is Some
            && field_u64(value@, "per_page"@) == Some(0u64)),
    ensures
        r is None <==> pagination_spec(value@) is None,
        r matches Some(t) ==> pagination_spec(value@) == Some(t@),
{
    let page = match get_u64(value, "page") {
        Some(p) => p,
        None => return None,
    };
    let total = match get_u64(value, "total") {
        Some(t) => t,
        None => return None,
    };
    let per_page = match get_u64(value, "per_page") {
        Some(p) => p,
        None => if total >= 1 { total } else { 1 },
    };
    let pages = if total % per_page == 0 {
        total / per_page
    } else {
        assert(total / per_page < total) by (nonlinear_arith)
            requires
                per_page >= 1,
                total % per_page != 0,
        {
            if per_page == 1 {
                assert(total % per_page == 0);
            }
        }
        total / per_page + 1
    };
    let mut out = String::from_str("Page ");
    out.append(u64_to_string(page).as_str());
    out.append("/");
    out.append(u64_to_string(pages).as_str());
    out.append(" (");
    out.append(u64_to_string(total).as_str());
    out.append(" total)");
    Some(out)
}

/* ---------------------------------------------------------------------- */
/* Rows and cells                                                          */
/* ---------------------------------------------------------------------- */

/// The contents of object members.
pub open spec fn entries_view(e: Seq<(String, Json)>) -> Seq<(Seq<char>, JsonV)> {
    e.map_values(|p: (String, Json)| (p.0@, p.1@))
}

/// The view of an object is the list of its members' views.
pub proof fn lemma_object_view(entries: Vec<(String, Json)>)
    ensures
        json_view(Json::Object(entries)) == JsonV::Object(entries_view(entries@)),
{
    assert(json_view(Json::Object(entries))->Object_0 =~= entries_view(entries@));
}

/// The contents of a list of rows.
pub open spec fn rows_view(r: Seq<Vec<(String, Json)>>) -> Seq<Seq<(Seq<char>, JsonV)>> {
    r.map_values(|row: Vec<(String, Json)>| entries_view(row@))
}

/// One row: an object's members, or any other value as the single column
/// `value`.
pub open spec fn row_of(value: JsonV) -> Seq<(Seq<char>, JsonV)> {
    match value {
        JsonV::Object(entries) => entries,
        other => seq![("value"@, other)],
    }
}

/// The rows a response is shown as: one per listed item, or the response
/// itself as one row.
pub open spec fn rows_spec(value: JsonV) -> Seq<Seq<(Seq<char>, JsonV)>> {
    let values = match extract_array_spec(value) {
        Some(items) => items,
        None => seq![value],
    };
    values.map_values(|x: JsonV| row_of(x))
}

/// A response without a list is one row of its own; a list is a row per item.
///
/// When a value holds no list, its table has exactly one row: an object's
/// members (its keys are the columns, in order), or, for any other value, the
/// single column `value` holding it. When it holds a list, there is one row
/// per item, in order: the item's members when it is an object, else the
/// column `value`.
pub proof fn law_table_rows(value: JsonV)
    ensures
        extract_array_spec(value) is None && value is Object ==> {
            &&& rows_spec(value) == seq![value->Object_0]
            &&& table_columns(value) == value->Object_0.map_values(|e: (Seq<char>, JsonV)| e.0)
        },
        extract_array_spec(value) is None && !(value is Object) ==> {
            &&& rows_spec(value) == seq![seq![("value"@, value)]]
            &&& table_columns(value) == seq!["value"@]
        },
        extract_array_spec(value) is Some ==> {
            let items = extract_array_spec(value)->Some_0;
            &&& rows_spec(value).len() == items.len()
            &&& forall|i: int|
                0 <= i < items.len() ==> (#[trigger] rows_spec(value)[i]) == (if items[i] is Object {
                    items[i]->Object_0
                } else {
                    seq![("value"@, items[i])]
                })
        },
{
    if extract_array_spec(value) is None {
        assert(rows_spec(value) =~= seq![row_of(value)]);
        assert(rows_spec(value)[0] == row_of(value));
        if !(value is Object) {
            assert(row_of(value).map_values(|e: (Seq<char>, JsonV)| e.0) =~= seq!["value"@]);
        }
    }
}

/// The row one value is shown as.
fn row_from(value: &Json) -> (r: Vec<(String, Json)>)
    ensures
        entries_view(r@) == row_of(value@),
{
    match value.duplicate() {
        Json::Object(entries) => {
            proof { lemma_object_view(entries); }
            entries
        },
        other => {
            let mut r: Vec<(String, Json)> = Vec::new();
            r.push((String::from_str("value"), other));
            assert(entries_view(r@) =~= row_of(value@));
            r
        },
    }
}

/// The rows a response is shown as.
pub fn rows(value: &Json) -> (r: Vec<Vec<(String, Json)>>)
    ensures
        rows_view(r@) == rows_spec(value@),
{
    let mut out: Vec<Vec<(String, Json)>> = Vec::new();
    match extract_array(value) {
        Some(items) => {
            let ghost values = seq_views(items@);
            let mut i: usize = 0;
            while i < items.len()
                invariant
                    values == seq_views(items@),
                    extract_array_spec(value@) == Some(values),
                    i <= items@.len(),
                    rows_view(out@) == values.subrange(0, i as int).map_values(|x: JsonV| row_of(x)),
                decreases items@.len() - i,
            {
                let row = row_from(&items[i]);
                let ghost before = rows_view(out@);
                let ghost rv_row = entries_view(row@);
                out.push(row);
                proof {
                    assert(values[i as int] == items@[i as int]@);
                    assert(rows_view(out@) =~= before.push(rv_row));
                    assert(values.subrange(0, i + 1) =~= values.subrange(0, i as int).push(values[i as int]));
                    assert(values.subrange(0, i + 1).map_values(|x: JsonV| row_of(x))
                        =~= values.subrange(0, i as int).map_values(|x: JsonV| row_of(x)).push(row_of(values[i as int])));
                }
                i = i + 1;
            }
            assert(values.subrange(0, items@.len() as int) == values);
        },
        None => {
            out.push(row_from(value));
            assert(rows_view(out@) =~= rows_spec(value@));
        },
    }
    out
}

/// The member `key` of a row.
pub fn lookup<'a>(entries: &'a Vec<(String, Json)>, key: &str) -> (r: Option<&'a Json>)
    ensures
        r is None <==> member(entries_view(entries@), key@) is None,
        r matches Some(v) ==> member(entries_view(entries@), key@) == Some(v@),
{
    let ghost view = entries_view(entries@);
    let mut i: usize = 0;
    assert(view.subrange(0, view.len() as int) == view);
    while i < entries.len()
        invariant
            view == entries_view(entries@),
            i <= view.len(),
            member(view, key@) == member(view.subrange(i as int, view.len() as int), key@),
        decreases view.len() - i,
    {
        let ghost rest = view.subrange(i as int, view.len() as int);
        assert(rest.drop_first() == view.subrange(i + 1, view.len() as int));
        assert(rest[0] == view[i as int]);
        if crate::json::str_eq(entries[i].0.as_str(), key) {
            return Some(&entries[i].1);
        }
        i = i + 1;
    }
    None
}

/// The table's columns: the keys of the first row.
pub open spec fn columns_spec(rows: Seq<Seq<(Seq<char>, JsonV)>>) -> Seq<Seq<char>> {
    if rows.len() == 0 {
        Seq::empty()
    } else {
        rows[0].map_values(|e: (Seq<char>, JsonV)| e.0)
    }
}

/// The value a row shows in a column: its member, or `null`.
pub open spec fn cell_value(row: Seq<(Seq<char>, JsonV)>, column: Seq<char>) -> JsonV {
    match member(row, column) {
        Some(v) => v,
        None => JsonV::Null,
    }
}

/// The values of every row in every column.
pub open spec fn cells_spec(rows: Seq<Seq<(Seq<char>, JsonV)>>, columns: Seq<Seq<char>>) -> Seq<Seq<JsonV>> {
    rows.map_values(|row: Seq<(Seq<char>, JsonV)>| columns.map_values(|c: Seq<char>| cell_value(row, c)))
}

/// The contents of a grid of values.
pub open spec fn grid_view(g: Seq<Vec<Json>>) -> Seq<Seq<JsonV>> {
    g.map_values(|row: Vec<Json>| seq_views(row@))
}

/// The columns and cell values a response is tabulated as.
pub fn layout(value: &Json) -> (r: (Vec<String>, Vec<Vec<Json>>))
    ensures
        crate::text::texts(r.0@) == columns_spec(rows_spec(value@)),
        grid_view(r.1@) == cells_spec(rows_spec(value@), columns_spec(rows_spec(value@))),
{
    let all = rows(value);
    let ghost rv = rows_view(all@);
    let mut columns: Vec<String> = Vec::new();
    if all.len() > 0 {
        let first = &all[0];
        let mut j: usize = 0;
        while j < first.len()
            invariant
                j <= first@.len(),
                rv == rows_view(all@),
                all@.len() > 0,
                *first == all@[0],
                crate::text::texts(columns@) == entries_view(first@).subrange(0, j as int).map_values(|e: (Seq<char>, JsonV)| e.0),
            decreases first@.len() - j,
        {
            let ghost before = crate::text::texts(columns@);
            columns.push(first[j].0.clone());
            proof {
                let ev = entries_view(first@);
                assert(crate::text::texts(columns@) =~= before.push(first@[j as int].0@));
                assert(ev[j as int].0 == first@[j as int].0@);
                assert(ev.subrange(0, j + 1) =~= ev.subrange(0, j as int).push(ev[j as int]));
                assert(ev.subrange(0, j + 1).map_values(|e: (Seq<char>, JsonV)| e.0)
                    =~= ev.subrange(0, j as int).map_values(|e: (Seq<char>, JsonV)| e.0).push(ev[j as int].0));
            }
            j = j + 1;
        }
        assert(entries_view(first@).subrange(0, first@.len() as int) == entries_view(first@));
    }
    assert(crate::text::texts(columns@) =~= columns_spec(rv));
    let ghost cols = columns_spec(rv);
    let mut grid: Vec<Vec<Json>> = Vec::new();
    let mut i: usize = 0;
    while i < all.len()
        invariant
            rv == rows_view(all@),
            cols == crate::text::texts(columns@),
            i <= all@.len(),
            grid_view(grid@) == cells_spec(rv.subrange(0, i as int), cols),
        decreases all@.len() - i,
    {
        let row = &all[i];
        let mut cells: Vec<Json> = Vec::new();
        let mut j: usize = 0;
        while j < columns.len()
            invariant
                cols == crate::text::texts(columns@),
                *row == all@[i as int],
                rv == rows_view(all@),
                i < all@.len(),
                j <= columns@.len(),
                seq_views(cells@) == cols.subrange(0, j as int).map_values(|c: Seq<char>| cell_value(rv[i as int], c)),
            decreases columns@.len() - j,
        {
            let cell = match lookup(row, columns[j].as_str()) {
                Some(v) => v.duplicate(),
                None => Json::Null,
            };
            let ghost before = seq_views(cells@);
            let ghost cv = cell@;
            proof {
                assert(rv[i as int] == entries_view(row@));
                assert(cols[j as int] == columns@[j as int]@);
                assert(cv == cell_value(rv[i as int], cols[j as int]));
            }
            cells.push(cell);
            proof {
                assert(seq_views(cells@) =~= before.push(cv));
                assert(cols.subrange(0, j + 1) =~= cols.subrange(0, j as int).push(cols[j as int]));
                assert(cols.subrange(0, j + 1).map_values(|c: Seq<char>| cell_value(rv[i as int], c))
                    =~= cols.subrange(0, j as int).map_values(|c: Seq<char>| cell_value(rv[i as int], c)).push(cell_value(rv[i as int], cols[j as int])));
            }
            j = j + 1;
        }
        assert(cols.subrange(0, columns@.len() as int) == cols);
        let ghost before = grid_view(grid@);
        let ghost row_cells = seq_views(cells@);
        grid.push(cells);
        proof {
            assert(grid_view(grid@) =~= before.push(row_cells));
            assert(rv.subrange(0, i + 1) =~= rv.subrange(0, i as int).push(rv[i as int]));
            assert(cells_spec(rv.subrange(0, i + 1), cols) =~= cells_spec(rv.subrange(0, i as int), cols).push(
                cols.map_values(|c: Seq<char>| cell_value(rv[i as int], c))));
        }
        i = i + 1;
    }
    assert(rv.subrange(0, all@.len() as int) == rv);
    (columns, grid)
}

/// The text a number is written as.
pub open spec fn number_text(n: NumberV) -> Seq<char> {
    match n {
        NumberV::PosInt(u) => decimal(u as nat),
        NumberV::NegInt(i) => signed_decimal(i as int),
        NumberV::Float(t) => t,
    }
}

/// The text a scalar shows in a cell: nothing for `null`, strings as they
/// are, `true`/`false`, numbers as written. Arrays and objects show as their
/// JSON text, which this function leaves to the JSON writer (`None`).
pub open spec fn cell_text_spec(value: JsonV) -> Option<Seq<char>> {
    match value {
        JsonV::Null => Some(Seq::empty()),
        JsonV::Str(s) => Some(s),
        JsonV::Bool(b) => Some(if b { "true"@ } else { "false"@ }),
        JsonV::Number(n) => Some(number_text(n)),
        _ => None,
    }
}

/// The text a scalar value shows in a cell.
pub fn cell_string(value: &Json) -> (r: Option<String>)
    ensures
        r is None <==> cell_text_spec(value@) is None,
        r matches Some(t) ==> cell_text_spec(value@) == Some(t@),
{
    match value {
        Json::Null => Some(String::new()),
        Json::String(s) => Some(s.clone()),
        Json::Bool(b) => if *b {
            Some(String::from_str("true"))
        } else {
            Some(String::from_str("false"))
        },
        Json::Number(n) => match n {
            JsonNumber::PosInt(u) => Some(u64_to_string(*u)),
            JsonNumber::NegInt(i) => Some(i64_to_string(*i)),
            JsonNumber::Float(t) => Some(t.clone()),
        },
        _ => None,
    }
}

/* ---------------------------------------------------------------------- */
/* Spreadsheet safety                                                      */
/* ---------------------------------------------------------------------- */

/// A character that makes a spreadsheet read a cell as a formula.
pub open spec fn is_formula_char(c: char) -> bool {
    c == '=' || c == '+' || c == '-' || c == '@'
}

/// The text begins with a formula character.
pub open spec fn starts_with_formula(s: Seq<char>) -> bool {
    s.len() > 0 && is_formula_char(s[0])
}

/// A cell prefixed with `'` when it begins with a formula character.
pub open spec fn sanitize_spec(s: Seq<char>) -> Seq<char> {
    if starts_with_formula(s) { seq!['\''] + s } else { s }
}

/// Makes a cell safe to open in spreadsheet software: text that begins with
/// `=`, `+`, `-` or `@` gets a leading `'`, so it is never evaluated.
pub fn sanitize_spreadsheet_cell(value: String) -> (r: String)
    ensures
        r@ == sanitize_spec(value@),
        !starts_with_formula(r@),
{
    let n = value.as_str().unicode_len();
    if n > 0 {
        let c = value.as_str().get_char(0);
        if c == '=' || c == '+' || c == '-' || c == '@' {
            proof { reveal_strlit("'"); }
            let mut out = String::from_str("'");
            out.append(value.as_str());
            return out;
        }
    }
    value
}

/* ---------------------------------------------------------------------- */
/* CSV                                                                     */
/* ---------------------------------------------------------------------- */

/// A `csv::Writer` over an in-memory buffer. Verus cannot take the writer's
/// type by itself (its parameter is bound by `std::io::Write`), so it is held
/// here, opaque, and described through `csv_records` and `csv_output`.
#[verifier::external_body]
pub struct CsvBuffer {
    writer: csv::Writer<Vec<u8>>,
}

/// The bytes `csv::Writer` (default settings: comma, `"` quoting only where
/// needed, `\n` terminator) writes for one record.
pub uninterp spec fn csv_record_bytes(fields: Seq<Seq<char>>) -> Seq<u8>;

/// The records written so far to a CSV writer.
pub uninterp spec fn csv_records(w: CsvBuffer) -> Seq<Seq<Seq<char>>>;

/// The bytes a CSV writer has produced so far (buffered or not).
pub uninterp spec fn csv_output(w: CsvBuffer) -> Seq<u8>;

/// What `String::from_utf8_lossy` makes of a byte string.
pub uninterp spec fn utf8_lossy_text(bytes: Seq<u8>) -> Seq<char>;

/// The bytes of a whole CSV document: its records, one after the other.
pub open spec fn csv_bytes(records: Seq<Seq<Seq<char>>>) -> Seq<u8>
    decreases records.len(),
{
    if records.len() == 0 {
        Seq::empty()
    } else {
        csv_bytes(records.drop_last()) + csv_record_bytes(records.last())
    }
}

/// `csv::Writer::from_writer` over an empty `Vec<u8>`: a writer with no
/// records yet.
#[verifier::external_body]
fn csv_writer() -> (w: CsvBuffer)
    ensures
        csv_records(w) == Seq::<Seq<Seq<char>>>::empty(),
        csv_output(w) == Seq::<u8>::empty(),
{
    CsvBuffer { writer: csv::Writer::from_writer(Vec::new()) }
}

/// `csv::Writer::write_record`. With the default (non-flexible) settings it
/// succeeds exactly when the record has as many fields as the first record
/// written (writing to a `Vec` cannot fail); the record is then appended.
/// The error's text is kept. After a failure nothing is claimed of the writer.
#[verifier::external_body]
fn csv_write_record(w: &mut CsvBuffer, record: &Vec<String>) -> (r: Result<(), String>)
    ensures
        r is Ok <==> (csv_records(*old(w)).len() == 0 || csv_records(*old(w))[0].len() == record@.len()),
        r is Ok ==> csv_records(*final(w)) == csv_records(*old(w)).push(crate::text::texts(record@)),
        r is Ok ==> csv_output(*final(w)) == csv_output(*old(w)) + csv_record_bytes(crate::text::texts(record@)),
{
    match w.writer.write_record(record) {
        Ok(()) => Ok(()),
        Err(e) => Err(e.to_string()),
    }
}

/// `csv::Writer::into_inner`: flushes into the `Vec` (which cannot fail) and
/// returns the bytes produced.
#[verifier::external_body]
fn csv_into_bytes(w: CsvBuffer) -> (r: Result<Vec<u8>, String>)
    ensures
        r is Ok,
        r matches Ok(b) ==> b@ == csv_output(w),
{
    match w.writer.into_inner() {
        Ok(bytes) => Ok(bytes),
        Err(e) => Err(e.into_error().to_string()),
    }
}

/// `String::from_utf8_lossy`: valid UTF-8 is decoded unchanged; invalid
/// sequences become U+FFFD.
#[verifier::external_body]
fn utf8_lossy(bytes: &Vec<u8>) -> (r: String)
    ensures
        r@ == utf8_lossy_text(bytes@),
        vstd::utf8::valid_utf8(bytes@) ==> r@ == vstd::utf8::decode_utf8(bytes@),
{
    String::from_utf8_lossy(bytes.as_slice()).into_owned()
}

/// The texts of a grid of strings.
pub open spec fn grid_texts(g: Seq<Vec<String>>) -> Seq<Seq<Seq<char>>> {
    g.map_values(|row: Vec<String>| crate::text::texts(row@))
}

/// Every cell made spreadsheet-safe.
pub open spec fn sanitized_rows(cells: Seq<Seq<Seq<char>>>) -> Seq<Seq<Seq<char>>> {
    cells.map_values(|row: Seq<Seq<char>>| row.map_values(|c: Seq<char>| sanitize_spec(c)))
}

/// Every row has one cell per column.
pub open spec fn rectangular(columns: Seq<Seq<char>>, cells: Seq<Seq<Seq<char>>>) -> bool {
    forall|i: int| 0 <= i < cells.len() ==> (#[trigger] cells[i]).len() == columns.len()
}

/// The CSV text of a table: the header record, then each row with its cells
/// made spreadsheet-safe, decoded and without trailing whitespace.
pub open spec fn csv_text(columns: Seq<Seq<char>>, cells: Seq<Seq<Seq<char>>>) -> Seq<char> {
    crate::text::trim_end_ws(utf8_lossy_text(csv_bytes(seq![columns] + sanitized_rows(cells))))
}

/// Writes a table as CSV. An empty table gives an empty text; otherwise the
/// header and every row, each cell that could be read as a formula
/// prefixed with `'`.
pub fn format_csv(columns: &Vec<String>, cells: &Vec<Vec<String>>) -> (r: Result<String, CliError>)
    ensures
        cells@.len() == 0 ==> (r matches Ok(t) && t@ == Seq::<char>::empty()),
        cells@.len() > 0 ==> (r is Ok <==> rectangular(crate::text::texts(columns@), grid_texts(cells@))),
        cells@.len() > 0 && r is Ok ==> r->Ok_0@ == csv_text(crate::text::texts(columns@), grid_texts(cells@)),
        r matches Err(e) ==> e is Csv,
{
    if cells.len() == 0 {
        return Ok(String::new());
    }
    let ghost cols = crate::text::texts(columns@);
    let ghost grid = grid_texts(cells@);
    let mut writer = csv_writer();
    match csv_write_record(&mut writer, columns) {
        Ok(()) => {},
        Err(m) => return Err(CliError::Csv(m)),
    }
    assert(csv_records(writer) =~= seq![cols]);
    assert(csv_output(writer) =~= csv_bytes(seq![cols])) by {
        reveal_with_fuel(csv_bytes, 2);
        assert(seq![cols].drop_last() =~= Seq::<Seq<Seq<char>>>::empty());
        assert(seq![cols].last() == cols);
        assert(Seq::<u8>::empty() + csv_record_bytes(cols) =~= csv_record_bytes(cols));
    }
    let mut i: usize = 0;
    while i < cells.len()
        invariant
            cols == crate::text::texts(columns@),
            grid == grid_texts(cells@),
            i <= cells@.len(),
            forall|k: int| 0 <= k < i ==> (#[trigger] grid[k]).len() == cols.len(),
            csv_records(writer) == seq![cols] + sanitized_rows(grid.subrange(0, i as int)),
            csv_output(writer) == csv_bytes(csv_records(writer)),
        decreases cells@.len() - i,
    {
        let row = &cells[i];
        let mut safe: Vec<String> = Vec::new();
        let mut j: usize = 0;
        while j < row.len()
            invariant
                *row == cells@[i as int],
                grid == grid_texts(cells@),
                i < cells@.len(),
                j <= row@.len(),
                crate::text::texts(safe@) == grid[i as int].subrange(0, j as int).map_values(|c: Seq<char>| sanitize_spec(c)),
            decreases row@.len() - j,
        {
            let ghost before = crate::text::texts(safe@);
            let cell = sanitize_spreadsheet_cell(row[j].clone());
            safe.push(cell);
            proof {
                let g = grid[i as int];
                assert(g[j as int] == row@[j as int]@);
                assert(crate::text::texts(safe@) =~= before.push(sanitize_spec(g[j as int])));
                assert(g.subrange(0, j + 1) =~= g.subrange(0, j as int).push(g[j as int]));
                assert(g.subrange(0, j + 1).map_values(|c: Seq<char>| sanitize_spec(c))
                    =~= g.subrange(0, j as int).map_values(|c: Seq<char>| sanitize_spec(c)).push(sanitize_spec(g[j as int])));
            }
            j = j + 1;
        }
        proof {
            assert(grid[i as int].subrange(0, row@.len() as int) == grid[i as int]);
        }
        let ghost before = csv_records(writer);
        match csv_write_record(&mut writer, &safe) {
            Ok(()) => {},
            Err(m) => {
                proof {
                    assert(before[0] == cols);
                    assert(grid[i as int].len() != cols.len());
                }
                return Err(CliError::Csv(m));
            },
        }
        proof {
            assert(before[0] == cols);
            assert(grid.subrange(0, i + 1) =~= grid.subrange(0, i as int).push(grid[i as int]));
            assert(sanitized_rows(grid.subrange(0, i + 1)) =~= sanitized_rows(grid.subrange(0, i as int)).push(
                grid[i as int].map_values(|c: Seq<char>| sanitize_spec(c))));
            assert(csv_records(writer) =~= seq![cols] + sanitized_rows(grid.subrange(0, i + 1)));
            assert(csv_records(writer).drop_last() == before);
        }
        i = i + 1;
    }
    proof {
        assert(grid.subrange(0, cells@.len() as int) == grid);
    }
    let bytes = match csv_into_bytes(writer) {
        Ok(b) => b,
        Err(m) => return Err(CliError::Io(m)),
    };
    let text = utf8_lossy(&bytes);
    Ok(crate::text::trim_end(text.as_str()))
}

/// No cell of a CSV export begins with a formula character.
///
/// Every data cell that `format_csv` hands to the CSV writer is the
/// spreadsheet-safe form of the cell it was given, and none of those begins with
/// `=`, `+`, `-` or `@`.
pub proof fn law_csv_cells_are_not_formulas(cells: Seq<Seq<Seq<char>>>, i: int, j: int)
    requires
        0 <= i < cells.len(),
        0 <= j < cells[i].len(),
    ensures
        !starts_with_formula(sanitized_rows(cells)[i][j]),
        sanitized_rows(cells)[i][j] == cells[i][j]
            || sanitized_rows(cells)[i][j] == seq!['\''] + cells[i][j],
{
}

/* ---------------------------------------------------------------------- */
/* Tables                                                                  */
/* ---------------------------------------------------------------------- */

#[verifier::external_type_specification]
#[verifier::external_body]
pub struct ExTable(comfy_table::Table);

/// The header and rows a `comfy_table::Table` holds.
pub uninterp spec fn table_content(t: comfy_table::Table) -> (Option<Seq<Seq<char>>>, Seq<Seq<Seq<char>>>);

/// The style of a table that otherwise has the settings of `Table::new`:
/// whether its borders are those of the `UTF8_FULL_CONDENSED` preset, and
/// whether its content arrangement is `Dynamic`.
pub uninterp spec fn table_style(t: comfy_table::Table) -> (bool, bool);

/// The text `comfy_table` renders for a table of unstyled cells with this
/// header and these rows, the `UTF8_FULL_CONDENSED` borders, `Dynamic`
/// arrangement and otherwise the settings of `Table::new`, when the width it
/// finds is `width` (the terminal's width, or none when standard output is
/// not a terminal).
pub uninterp spec fn rendered_table(header: Option<Seq<Seq<char>>>, rows: Seq<Seq<Seq<char>>>, width: Option<u16>) -> Seq<char>;

/// `comfy_table::Table::new`: no header, no rows, ASCII borders and no
/// content arrangement.
#[verifier::external_body]
fn table_new() -> (t: comfy_table::Table)
    ensures
        table_content(t) == (None::<Seq<Seq<char>>>, Seq::<Seq<Seq<char>>>::empty()),
        table_style(t) == (false, false),
{
    comfy_table::Table::new()
}

/// `Table::load_preset` with the condensed UTF-8 border style; the content
/// is unchanged.
#[verifier::external_body]
fn table_use_condensed_style(t: &mut comfy_table::Table)
    ensures
        table_content(*final(t)) == table_content(*old(t)),
        table_style(*final(t)) == (true, table_style(*old(t)).1),
{
    t.load_preset(comfy_table::presets::UTF8_FULL_CONDENSED);
}

/// `Table::set_content_arrangement(Dynamic)`: columns are fitted to the
/// terminal width when there is one; the content is unchanged.
#[verifier::external_body]
fn table_fit_to_terminal(t: &mut comfy_table::Table)
    ensures
        table_content(*final(t)) == table_content(*old(t)),
        table_style(*final(t)) == (table_style(*old(t)).0, true),
{
    t.set_content_arrangement(comfy_table::ContentArrangement::Dynamic);
}

/// `Table::set_header`: the header becomes these cells.
#[verifier::external_body]
fn table_set_header(t: &mut comfy_table::Table, header: &Vec<String>)
    ensures
        table_content(*final(t)) == (Some(crate::text::texts(header@)), table_content(*old(t)).1),
        table_style(*final(t)) == table_style(*old(t)),
{
    t.set_header(header.clone());
}

/// `Table::add_row`: the row is appended.
#[verifier::external_body]
fn table_add_row(t: &mut comfy_table::Table, row: &Vec<String>)
    ensures
        table_content(*final(t)) == (table_content(*old(t)).0, table_content(*old(t)).1.push(crate::text::texts(row@))),
        table_style(*final(t)) == table_style(*old(t)),
{
    t.add_row(row.clone());
}

/// The rendered table (`Display`). Its layout depends on the width of the
/// terminal standard output goes to, if any, so for a table of the library's
/// style the text is the rendering of its cells at some width.
#[verifier::external_body]
fn table_render(t: &comfy_table::Table) -> (r: String)
    ensures
        table_style(*t) == (true, true) ==> exists|w: Option<u16>|
            r@ == #[trigger] rendered_table(table_content(*t).0, table_content(*t).1, w),
{
    t.to_string()
}

/// Shows a table in the terminal: `(no data)` when there are no rows,
/// otherwise a bordered table with the columns as header and a line per row,
/// fitted to the terminal's width.
pub fn format_table(columns: &Vec<String>, cells: &Vec<Vec<String>>) -> (r: String)
    ensures
        cells@.len() == 0 ==> r@ == "(no data)"@,
        cells@.len() > 0 ==> exists|w: Option<u16>|
            r@ == #[trigger] rendered_table(Some(crate::text::texts(columns@)), grid_texts(cells@), w),
{
    if cells.len() == 0 {
        return String::from_str("(no data)");
    }
    let mut table = table_new();
    table_use_condensed_style(&mut table);
    table_fit_to_terminal(&mut table);
    table_set_header(&mut table, columns);
    let mut i: usize = 0;
    while i < cells.len()
        invariant
            i <= cells@.len(),
            table_content(table) == (Some(crate::text::texts(columns@)), grid_texts(cells@).subrange(0, i as int)),
            table_style(table) == (true, true),
        decreases cells@.len() - i,
    {
        table_add_row(&mut table, &cells[i]);
        assert(grid_texts(cells@).subrange(0, i + 1) =~= grid_texts(cells@).subrange(0, i as int).push(
            crate::text::texts(cells@[i as int]@)));
        i = i + 1;
    }
    assert(grid_texts(cells@).subrange(0, cells@.len() as int) == grid_texts(cells@));
    table_render(&table)
}

/* ---------------------------------------------------------------------- */
/* Formatting a value                                                      */
/* ---------------------------------------------------------------------- */

/// The text a value shows in a cell: scalars as [`cell_text_spec`] writes
/// them, arrays and objects as compact JSON.
pub open spec fn cell_text_full(value: JsonV) -> Seq<char> {
    match cell_text_spec(value) {
        Some(t) => t,
        None => crate::json_io::compact_json_text(crate::json_io::built_value(value)),
    }
}

/// The text a value shows in a cell.
pub fn cell_text(value: &Json) -> (r: String)
    ensures
        r@ == cell_text_full(value@),
{
    match cell_string(value) {
        Some(t) => t,
        None => crate::json_io::write_json(value, false),
    }
}

/// The columns of the table a value is shown as.
pub open spec fn table_columns(value: JsonV) -> Seq<Seq<char>> {
    columns_spec(rows_spec(value))
}

/// The cell texts of the table a value is shown as.
pub open spec fn table_texts(value: JsonV) -> Seq<Seq<Seq<char>>> {
    cells_spec(rows_spec(value), table_columns(value)).map_values(
        |row: Seq<JsonV>| row.map_values(|c: JsonV| cell_text_full(c)),
    )
}

/// The columns and cell texts of the table a value is shown as.
pub fn table_cells(value: &Json) -> (r: (Vec<String>, Vec<Vec<String>>))
    ensures
        crate::text::texts(r.0@) == table_columns(value@),
        grid_texts(r.1@) == table_texts(value@),
{
    let (columns, grid) = layout(value);
    let ghost want = table_texts(value@);
    let ghost values = grid_view(grid@);
    let mut out: Vec<Vec<String>> = Vec::new();
    let mut i: usize = 0;
    while i < grid.len()
        invariant
            values == grid_view(grid@),
            values == cells_spec(rows_spec(value@), table_columns(value@)),
            want == table_texts(value@),
            want.len() == grid@.len(),
            i <= grid@.len(),
            grid_texts(out@) == want.subrange(0, i as int),
        decreases grid@.len() - i,
    {
        let row = &grid[i];
        let mut texts: Vec<String> = Vec::new();
        let mut j: usize = 0;
        while j < row.len()
            invariant
                *row == grid@[i as int],
                values == grid_view(grid@),
                want == table_texts(value@),
                values == cells_spec(rows_spec(value@), table_columns(value@)),
                i < grid@.len(),
                j <= row@.len(),
                crate::text::texts(texts@) == want[i as int].subrange(0, j as int),
            decreases row@.len() - j,
        {
            let ghost before = crate::text::texts(texts@);
            let t = cell_text(&row[j]);
            texts.push(t);
            proof {
                assert(values[i as int] == seq_views(row@));
                assert(want[i as int] == values[i as int].map_values(|c: JsonV| cell_text_full(c)));
                assert(want[i as int][j as int] == cell_text_full(row@[j as int]@));
                assert(crate::text::texts(texts@) =~= before.push(want[i as int][j as int]));
                assert(want[i as int].subrange(0, j + 1) =~= want[i as int].subrange(0, j as int).push(want[i as int][j as int]));
            }
            j = j + 1;
        }
        proof {
            assert(values[i as int] == seq_views(row@));
            assert(want[i as int].len() == row@.len());
            assert(want[i as int].subrange(0, row@.len() as int) == want[i as int]);
        }
        let ghost before = grid_texts(out@);
        out.push(texts);
        assert(grid_texts(out@) =~= before.push(want[i as int]));
        assert(want.subrange(0, i + 1) =~= want.subrange(0, i as int).push(want[i as int]));
        i = i + 1;
    }
    assert(want.subrange(0, grid@.len() as int) == want);
    (columns, out)
}

/// Every row of a value's table has one cell per column.
proof fn lemma_table_rectangular(value: JsonV)
    ensures
        rectangular(table_columns(value), table_texts(value)),
{
    let t = table_texts(value);
    assert forall|i: int| 0 <= i < t.len() implies (#[trigger] t[i]).len() == table_columns(value).len() by {
        let cells = cells_spec(rows_spec(value), table_columns(value));
        assert(cells[i].len() == table_columns(value).len());
    }
}

/// Formats a value: JSON (indented on a terminal, compact otherwise), a
/// table, or CSV.
pub fn format_value(value: &Json, format: OutputFormat, terminal: bool) -> (r: Result<String, CliError>)
    ensures
        r is Ok,
        format is Json ==> r->Ok_0@ == if terminal {
            crate::json_io::pretty_json_text(crate::json_io::built_value(value@))
        } else {
            crate::json_io::compact_json_text(crate::json_io::built_value(value@))
        },
        format is Table && table_texts(value@).len() == 0 ==> r->Ok_0@ == "(no data)"@,
        format is Table && table_texts(value@).len() > 0 ==> exists|w: Option<u16>|
            r->Ok_0@ == #[trigger] rendered_table(Some(table_columns(value@)), table_texts(value@), w),
        format is Csv && table_texts(value@).len() == 0 ==> r->Ok_0@ == Seq::<char>::empty(),
        format is Csv && table_texts(value@).len() > 0 ==> r->Ok_0@ == csv_text(table_columns(value@), table_texts(value@)),
{
    match format {
        OutputFormat::Json => Ok(crate::json_io::write_json(value, terminal)),
        OutputFormat::Table => {
            let (columns, cells) = table_cells(value);
            Ok(format_table(&columns, &cells))
        },
        OutputFormat::Csv => {
            let (columns, cells) = table_cells(value);
            proof { lemma_table_rectangular(value@); }
            format_csv(&columns, &cells)
        },
    }
}

} // verus!
