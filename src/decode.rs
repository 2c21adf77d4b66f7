use vstd::prelude::*;
use gcp_bigquery_client::error::BQError;
use gcp_bigquery_client::model::query_response::ResultSet;
use crate::error::{AppError, ErrorKind};

verus! {

#[verifier::external_type_specification]
#[verifier::external_body]
pub struct ExResultSet(ResultSet);

#[verifier::external_type_specification]
#[verifier::external_body]
pub struct ExBQError(BQError);

/// What `ResultSet::get_string` gives for each cell of each row of a
/// result set: `Some(Some(text))`, `Some(None)` for an absent value, `None`
/// for a value with no text form. A row holds one entry per distinct
/// column name of the schema.
pub uninterp spec fn result_cells(rs: ResultSet) -> Seq<Seq<Option<Option<Seq<char>>>>>;

/// The row a result set's cursor stands on; -1 before the first row.
pub uninterp spec fn result_cursor(rs: ResultSet) -> int;

/// The position of each column of a result set's schema, by column name,
/// as `ResultSet::column_index` gives it.
pub uninterp spec fn result_columns(rs: ResultSet) -> Map<Seq<char>, usize>;

/// A cell read as a plain value: `None` for an error.
pub open spec fn read_view(r: Result<Option<String>, BQError>) -> Option<Option<Seq<char>>> {
    match r {
        Ok(Some(s)) => Some(Some(s@)),
        Ok(None) => Some(None),
        Err(_) => None,
    }
}

/// What `get_string` gives at a column of the current row: the cell there,
/// or an error for a column beyond the schema.
pub open spec fn current_cell(rs: ResultSet, col: int) -> Option<Option<Seq<char>>> {
    cell_at(result_cells(rs)[result_cursor(rs)], col)
}

/// Relies on `ResultSet::row_count`: the number of rows, which is the length
/// of the stored row list; the cursor lies between -1 and the last row.
pub assume_specification[ ResultSet::row_count ](rs: &ResultSet) -> (r: usize)
    ensures
        r == result_cells(*rs).len(),
        -1 <= result_cursor(*rs) < r,
;

/// Relies on `ResultSet::next_row`: moves the cursor to the next row and
/// tells whether there was one; the rows themselves do not change.
pub assume_specification[ ResultSet::next_row ](rs: &mut ResultSet) -> (r: bool)
    ensures
        result_cells(*final(rs)) == result_cells(*old(rs)),
        result_columns(*final(rs)) == result_columns(*old(rs)),
        r == (result_cursor(*old(rs)) != result_cells(*old(rs)).len() - 1),
        r ==> result_cursor(*final(rs)) == result_cursor(*old(rs)) + 1,
        !r ==> result_cursor(*final(rs)) == result_cursor(*old(rs)),
;

/// Relies on `ResultSet::get_string`: on a row, the cell at a column as
/// text, `None` for an absent value, an error for a value with no text form
/// or a column beyond the schema. It never panics.
pub assume_specification[ ResultSet::get_string ](rs: &ResultSet, col_index: usize) -> (r: Result<
    Option<String>,
    BQError,
>)
    ensures
        0 <= result_cursor(*rs) < result_cells(*rs).len() ==> read_view(r) == current_cell(
            *rs,
            col_index as int,
        ),
;

/// Relies on `ResultSet::column_index`: the position of the column with a
/// given name in the result's schema, if it has one.
pub assume_specification<'a>[ ResultSet::column_index ](rs: &'a ResultSet, column_name: &str) -> (r:
    Option<&'a usize>)
    ensures
        r is Some <==> result_columns(*rs).contains_key(column_name@),
        r is Some ==> *r->Some_0 == result_columns(*rs)[column_name@],
;

/// The name of the column each field of a customer is read from, in the
/// record's field order.
pub open spec fn column_name(i: int) -> Seq<char> {
    if i == 0 {
        "customer_id"@
    } else if i == 1 {
        "first_name"@
    } else if i == 2 {
        "last_name"@
    } else if i == 3 {
        "email"@
    } else {
        "created_at"@
    }
}

/// The schema has every column a customer is read from.
pub open spec fn has_columns(cols: Map<Seq<char>, usize>) -> bool {
    forall|i: int| 0 <= i < COLUMNS ==> cols.contains_key(#[trigger] column_name(i))
}

/// The positions of a customer's columns, in the record's field order.
pub open spec fn positions_of(cols: Map<Seq<char>, usize>) -> Seq<usize> {
    seq![
        cols[column_name(0)],
        cols[column_name(1)],
        cols[column_name(2)],
        cols[column_name(3)],
        cols[column_name(4)],
    ]
}

/// Number of columns of a customer row.
pub const COLUMNS: usize = 5;

/// A warehouse cell as the decoder sees it.
#[derive(Debug, Clone)]
pub enum Cell {
    /// A value with a text form.
    Text(String),
    /// The warehouse's absent/null marker.
    Null,
    /// A value that has no text form (a record, an array).
    Other,
}

/// A decoded customer row. Every field is present; an absent cell gives
/// an empty string.
#[derive(Debug, Clone)]
pub struct Customer {
    pub id: String,
    pub first_name: String,
    pub last_name: String,
    pub email: String,
    pub created_at: String,
}

/// A cell as a plain value, in the shape of `read_view`.
pub open spec fn cell_view(c: Cell) -> Option<Option<Seq<char>>> {
    match c {
        Cell::Text(s) => Some(Some(s@)),
        Cell::Null => Some(None),
        Cell::Other => None,
    }
}

/// The string a read cell stands for: its text, or empty for anything else.
pub open spec fn read_text(v: Option<Option<Seq<char>>>) -> Seq<char> {
    match v {
        Some(Some(s)) => s,
        _ => Seq::empty(),
    }
}

/// The string a cell stands for: its text, or empty for anything else.
pub open spec fn cell_text(c: Cell) -> Seq<char> {
    read_text(cell_view(c))
}

/// The cell at a column of a row of a result set; a missing column is an
/// unreadable one.
pub open spec fn cell_at(cells: Seq<Option<Option<Seq<char>>>>, i: int) -> Option<
    Option<Seq<char>>,
> {
    if 0 <= i < cells.len() {
        cells[i]
    } else {
        None
    }
}

/// The record is the one a row of a result set describes, each field being
/// the cell at its column's position.
pub open spec fn decodes_cells(
    cells: Seq<Option<Option<Seq<char>>>>,
    pos: Seq<usize>,
    c: Customer,
) -> bool {
    &&& c.id@ == read_text(cell_at(cells, pos[0] as int))
    &&& c.first_name@ == read_text(cell_at(cells, pos[1] as int))
    &&& c.last_name@ == read_text(cell_at(cells, pos[2] as int))
    &&& c.email@ == read_text(cell_at(cells, pos[3] as int))
    &&& c.created_at@ == read_text(cell_at(cells, pos[4] as int))
}

/// The row holds, in field order, the cells of a row of a result set at
/// the given positions.
pub open spec fn row_read_from(
    row: Seq<Cell>,
    cells: Seq<Option<Option<Seq<char>>>>,
    pos: Seq<usize>,
) -> bool {
    &&& row.len() == COLUMNS
    &&& forall|col: int|
        0 <= col < COLUMNS ==> #[trigger] cell_view(row[col]) == cell_at(cells, pos[col] as int)
}

/// The string at a column of a row; a missing column reads as empty.
pub open spec fn column_text(row: Seq<Cell>, i: int) -> Seq<char> {
    if 0 <= i < row.len() {
        cell_text(row[i])
    } else {
        Seq::empty()
    }
}

/// The record is the one the row describes, column by column:
/// id, first name, last name, email, creation time.
pub open spec fn decodes_to(row: Seq<Cell>, c: Customer) -> bool {
    &&& c.id@ == column_text(row, 0)
    &&& c.first_name@ == column_text(row, 1)
    &&& c.last_name@ == column_text(row, 2)
    &&& c.email@ == column_text(row, 3)
    &&& c.created_at@ == column_text(row, 4)
}

/// Every record is the decoding of the row at the same position.
pub open spec fn decodes_all(rows: Seq<Vec<Cell>>, out: Seq<Customer>) -> bool {
    &&& out.len() == rows.len()
    &&& forall|i: int| 0 <= i < rows.len() ==> #[trigger] decodes_to(rows[i]@, out[i])
}

/// An absent or unreadable cell decodes to an empty field, never to an
/// absent value; a cell with text decodes to exactly that text.
pub proof fn lemma_cell_coercion(row: Seq<Cell>, c: Customer, i: int)
    requires
        decodes_to(row, c),
        0 <= i < COLUMNS,
    ensures
        i < row.len() && !(row[i] is Text) ==> column_text(row, i).len() == 0,
        i < row.len() && row[i] is Text ==> column_text(row, i) == row[i]->Text_0@,
        i == 0 ==> c.id@ == column_text(row, i),
        i == 1 ==> c.first_name@ == column_text(row, i),
        i == 2 ==> c.last_name@ == column_text(row, i),
        i == 3 ==> c.email@ == column_text(row, i),
        i == 4 ==> c.created_at@ == column_text(row, i),
{
}

/// Turns the outcome of reading a cell into a cell value.
pub fn cell_from_read(read: Result<Option<String>, BQError>) -> (c: Cell)
    ensures
        cell_view(c) == read_view(read),
{
    match read {
        Ok(Some(s)) => Cell::Text(s),
        Ok(None) => Cell::Null,
        Err(_) => Cell::Other,
    }
}

/// The string form of a cell; absent and unreadable cells give "".
pub fn cell_string(c: &Cell) -> (r: String)
    ensures
        r@ == cell_text(*c),
{
    match c {
        Cell::Text(s) => s.clone(),
        _ => String::new(),
    }
}

fn column_string(row: &Vec<Cell>, i: usize) -> (r: String)
    ensures
        r@ == column_text(row@, i as int),
{
    if i < row.len() {
        cell_string(&row[i])
    } else {
        String::new()
    }
}

/// Builds the record of one row whose cells stand in the record's field
/// order.
pub fn decode_row(row: &Vec<Cell>) -> (c: Customer)
    ensures
        decodes_to(row@, c),
{
    Customer {
        id: column_string(row, 0),
        first_name: column_string(row, 1),
        last_name: column_string(row, 2),
        email: column_string(row, 3),
        created_at: column_string(row, 4),
    }
}

/// Decodes every row, keeping the row order.
pub fn decode(rows: &Vec<Vec<Cell>>) -> (out: Vec<Customer>)
    ensures
        decodes_all(rows@, out@),
{
    let mut out: Vec<Customer> = Vec::new();
    let mut i: usize = 0;
    while i < rows.len()
        invariant
            i <= rows@.len(),
            out@.len() == i,
            forall|k: int| 0 <= k < i ==> #[trigger] decodes_to(rows@[k]@, out@[k]),
        decreases rows@.len() - i,
    {
        let c = decode_row(&rows[i]);
        out.push(c);
        i = i + 1;
    }
    out
}

/// Decodes the first row of a lookup; no row at all is `NotFound`.
pub fn decode_one(rows: &Vec<Vec<Cell>>) -> (r: Result<Customer, AppError>)
    ensures
        rows@.len() == 0 <==> r is Err,
        r is Err ==> r->Err_0.kind == ErrorKind::NotFound,
        r is Ok ==> decodes_to(rows@[0]@, r->Ok_0),
{
    if rows.len() == 0 {
        Err(AppError::new(ErrorKind::NotFound, String::from_str("no customer matches the id")))
    } else {
        Ok(decode_row(&rows[0]))
    }
}

fn find_column(rs: &ResultSet, name: &str) -> (r: Option<usize>)
    ensures
        r is Some <==> result_columns(*rs).contains_key(name@),
        r is Some ==> r->Some_0 == result_columns(*rs)[name@],
{
    match rs.column_index(name) {
        Some(p) => Some(*p),
        None => None,
    }
}

/// Finds the positions of a customer's columns in the result's schema; a
/// missing column is a `Schema` error.
pub fn column_positions(rs: &ResultSet) -> (r: Result<Vec<usize>, AppError>)
    ensures
        r is Ok <==> has_columns(result_columns(*rs)),
        r is Ok ==> r->Ok_0@ == positions_of(result_columns(*rs)),
        r is Err ==> r->Err_0.kind == ErrorKind::Schema,
{
    let cols = Ghost(result_columns(*rs));
    let mut pos: Vec<usize> = Vec::new();
    let names = ["customer_id", "first_name", "last_name", "email", "created_at"];
    proof {
        reveal_strlit("customer_id");
        reveal_strlit("first_name");
        reveal_strlit("last_name");
        reveal_strlit("email");
        reveal_strlit("created_at");
        assert(names@ =~= seq!["customer_id", "first_name", "last_name", "email", "created_at"]);
    }
    let mut i: usize = 0;
    while i < COLUMNS
        invariant
            cols@ == result_columns(*rs),
            names@ == seq!["customer_id", "first_name", "last_name", "email", "created_at"],
            i <= COLUMNS,
            pos@.len() == i,
            forall|k: int| 0 <= k < i ==> cols@.contains_key(#[trigger] column_name(k)),
            forall|k: int| 0 <= k < i ==> pos@[k] == cols@[#[trigger] column_name(k)],
        decreases COLUMNS - i,
    {
        assert(names@[i as int]@ == column_name(i as int));
        match find_column(rs, names[i]) {
            Some(p) => pos.push(p),
            None => {
                assert(!cols@.contains_key(column_name(i as int)));
                return Err(
                    AppError::new(ErrorKind::Schema, String::from_str("result lacks a customer column")),
                );
            },
        }
        i = i + 1;
    }
    assert(pos@ =~= positions_of(cols@));
    Ok(pos)
}

/// Reads, in field order, the cells of the cursor's current row at the
/// given positions.
pub fn read_row(rs: &ResultSet, pos: &Vec<usize>) -> (row: Vec<Cell>)
    requires
        0 <= result_cursor(*rs) < result_cells(*rs).len(),
        pos@.len() == COLUMNS,
    ensures
        row_read_from(row@, result_cells(*rs)[result_cursor(*rs)], pos@),
{
    let mut row: Vec<Cell> = Vec::new();
    let mut col: usize = 0;
    while col < COLUMNS
        invariant
            0 <= result_cursor(*rs) < result_cells(*rs).len(),
            pos@.len() == COLUMNS,
            col <= COLUMNS,
            row@.len() == col,
            forall|k: int|
                0 <= k < col ==> #[trigger] cell_view(row@[k]) == cell_at(
                    result_cells(*rs)[result_cursor(*rs)],
                    pos@[k] as int,
                ),
        decreases COLUMNS - col,
    {
        row.push(cell_from_read(rs.get_string(pos[col])));
        col = col + 1;
    }
    row
}

/// The rows that follow the cursor of a result set, in order.
pub open spec fn rows_ahead(rs: ResultSet) -> Seq<Seq<Option<Option<Seq<char>>>>> {
    result_cells(rs).subrange(result_cursor(rs) + 1, result_cells(rs).len() as int)
}

/// Walks the cursor to its end and collects the rows it passes, in order,
/// each read at the given positions.
pub fn read_rows(rs: &mut ResultSet, pos: &Vec<usize>) -> (rows: Vec<Vec<Cell>>)
    requires
        pos@.len() == COLUMNS,
    ensures
        result_columns(*final(rs)) == result_columns(*old(rs)),
        rows@.len() == rows_ahead(*old(rs)).len(),
        forall|i: int|
            0 <= i < rows@.len() ==> row_read_from(
                #[trigger] rows@[i]@,
                rows_ahead(*old(rs))[i],
                pos@,
            ),
{
    let n = rs.row_count();
    let ghost cells = result_cells(*rs);
    let ghost cols = result_columns(*rs);
    let ghost start = result_cursor(*rs);
    let mut rows: Vec<Vec<Cell>> = Vec::new();
    let mut i: usize = 0;
    while i < n
        invariant
            pos@.len() == COLUMNS,
            n == cells.len(),
            -1 <= start < n,
            result_cells(*rs) == cells,
            result_columns(*rs) == cols,
            result_cursor(*rs) == start + i,
            start + i < n,
            rows@.len() == i,
            forall|k: int|
                0 <= k < i ==> row_read_from(#[trigger] rows@[k]@, cells[start + 1 + k], pos@),
        ensures
            result_columns(*rs) == cols,
            rows@.len() == n - 1 - start,
            forall|k: int|
                0 <= k < rows@.len() ==> row_read_from(
                    #[trigger] rows@[k]@,
                    cells[start + 1 + k],
                    pos@,
                ),
        decreases n - i,
    {
        if !rs.next_row() {
            break;
        }
        rows.push(read_row(rs, pos));
        i = i + 1;
    }
    proof {
        assert forall|k: int| 0 <= k < rows@.len() implies row_read_from(
            #[trigger] rows@[k]@,
            cells.subrange(start + 1, cells.len() as int)[k],
            pos@,
        ) by {
            assert(cells.subrange(start + 1, cells.len() as int)[k] == cells[start + 1 + k]);
        }
    }
    rows
}

/// A row read from a result set decodes to the record of its cells.
proof fn lemma_read_row_decodes(
    row: Seq<Cell>,
    cells: Seq<Option<Option<Seq<char>>>>,
    pos: Seq<usize>,
    c: Customer,
)
    requires
        row_read_from(row, cells, pos),
        decodes_to(row, c),
    ensures
        decodes_cells(cells, pos, c),
{
    assert(cell_view(row[0]) == cell_at(cells, pos[0] as int));
    assert(cell_view(row[1]) == cell_at(cells, pos[1] as int));
    assert(cell_view(row[2]) == cell_at(cells, pos[2] as int));
    assert(cell_view(row[3]) == cell_at(cells, pos[3] as int));
    assert(cell_view(row[4]) == cell_at(cells, pos[4] as int));
}

/// Decodes every row ahead of a list query's cursor, in the cursor's order,
/// reading each field from the column of its name. A result that lacks one
/// of those columns is a `Schema` error.
pub fn list(rs: &mut ResultSet) -> (r: Result<Vec<Customer>, AppError>)
    ensures
        r is Ok <==> has_columns(result_columns(*old(rs))),
        r is Err ==> r->Err_0.kind == ErrorKind::Schema,
        r is Ok ==> r->Ok_0@.len() == rows_ahead(*old(rs)).len(),
        r is Ok ==> forall|i: int|
            0 <= i < r->Ok_0@.len() ==> decodes_cells(
                rows_ahead(*old(rs))[i],
                positions_of(result_columns(*old(rs))),
                #[trigger] r->Ok_0@[i],
            ),
{
    let pos = match column_positions(rs) {
        Ok(p) => p,
        Err(e) => return Err(e),
    };
    let rows = read_rows(rs, &pos);
    let out = decode(&rows);
    proof {
        assert forall|i: int| 0 <= i < out@.len() implies decodes_cells(
            rows_ahead(*old(rs))[i],
            pos@,
            #[trigger] out@[i],
        ) by {
            assert(decodes_to(rows@[i]@, out@[i]));
            lemma_read_row_decodes(rows@[i]@, rows_ahead(*old(rs))[i], pos@, out@[i]);
        }
    }
    Ok(out)
}

/// Decodes the first row ahead of a lookup's cursor, reading each field from
/// the column of its name. A result that lacks one of those columns is a
/// `Schema` error; one with no row left is `NotFound`.
pub fn get(rs: &mut ResultSet) -> (r: Result<Customer, AppError>)
    ensures
        !has_columns(result_columns(*old(rs))) <==> (r is Err && r->Err_0.kind
            == ErrorKind::Schema),
        has_columns(result_columns(*old(rs))) ==> (r is Err <==> rows_ahead(*old(rs)).len()
            == 0),
        r is Err ==> r->Err_0.kind == ErrorKind::Schema || r->Err_0.kind == ErrorKind::NotFound,
        r is Ok ==> decodes_cells(
            rows_ahead(*old(rs))[0],
            positions_of(result_columns(*old(rs))),
            r->Ok_0,
        ),
{
    let pos = match column_positions(rs) {
        Ok(p) => p,
        Err(e) => return Err(e),
    };
    let rows = read_rows(rs, &pos);
    let r = decode_one(&rows);
    proof {
        if r is Ok {
            lemma_read_row_decodes(rows@[0]@, rows_ahead(*old(rs))[0], pos@, r->Ok_0);
        }
    }
    r
}

} // verus!
