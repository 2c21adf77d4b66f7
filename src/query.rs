use vstd::prelude::*;
use crate::error::{AppError, ErrorKind};

verus! {

/// Longest customer id accepted in a lookup.
pub const MAX_ID_LEN: usize = 64;

/// Where the customer table lives in the warehouse.
#[derive(Debug, Clone)]
pub struct WarehouseConfig {
    pub project_id: String,
    pub dataset: String,
    pub table: String,
}

/// The query to run: every customer, or the one with a given id.
#[derive(Debug, Clone)]
pub enum QuerySpec {
    ListAll,
    GetById(String),
}

/// A table path part: non-empty, and free of the backquote that closes the
/// quoted path.
pub open spec fn valid_name(s: Seq<char>) -> bool {
    &&& s.len() > 0
    &&& forall|i: int| 0 <= i < s.len() ==> s[i] != '`'
}

pub open spec fn is_digit(c: char) -> bool {
    '0' <= c && c <= '9'
}

/// An id that may be written into a query: one to `MAX_ID_LEN` decimal digits.
pub open spec fn valid_id(s: Seq<char>) -> bool {
    &&& 0 < s.len() <= MAX_ID_LEN
    &&& forall|i: int| 0 <= i < s.len() ==> is_digit(#[trigger] s[i])
}

impl WarehouseConfig {
    pub open spec fn well_formed(&self) -> bool {
        valid_name(self.project_id@) && valid_name(self.dataset@) && valid_name(self.table@)
    }

    /// The quoted path of the table: `` `project.dataset.table` ``.
    pub open spec fn table_path(&self) -> Seq<char> {
        "`"@ + self.project_id@ + "."@ + self.dataset@ + "."@ + self.table@ + "`"@
    }

    /// Accepts the configuration when every part is a valid name.
    pub fn new(project_id: String, dataset: String, table: String) -> (r: Result<
        WarehouseConfig,
        AppError,
    >)
        ensures
            r is Ok <==> (valid_name(project_id@) && valid_name(dataset@) && valid_name(table@)),
            r is Ok ==> r->Ok_0.well_formed() && r->Ok_0.project_id@ == project_id@,
            r is Ok ==> r->Ok_0.dataset@ == dataset@ && r->Ok_0.table@ == table@,
            r is Ok ==> r->Ok_0.table_path() == "`"@ + project_id@ + "."@ + dataset@ + "."@
                + table@ + "`"@,
            r is Err ==> r->Err_0.kind == ErrorKind::Validation,
    {
        if check_name(&project_id) && check_name(&dataset) && check_name(&table) {
            Ok(WarehouseConfig { project_id, dataset, table })
        } else {
            Err(AppError::new(ErrorKind::Validation, String::from_str("invalid table path")))
        }
    }
}

fn check_name(s: &String) -> (r: bool)
    ensures
        r == valid_name(s@),
{
    let t = s.as_str();
    let n = t.unicode_len();
    if n == 0 {
        return false;
    }
    let mut i: usize = 0;
    while i < n
        invariant
            t@ == s@,
            n == t@.len(),
            i <= n,
            forall|k: int| 0 <= k < i ==> t@[k] != '`',
        decreases n - i,
    {
        if t.get_char(i) == '`' {
            assert(t@[i as int] == '`');
            return false;
        }
        i = i + 1;
    }
    true
}

/// Tells whether an id may be written into a lookup query.
pub fn check_id(id: &String) -> (r: bool)
    ensures
        r == valid_id(id@),
{
    let t = id.as_str();
    let n = t.unicode_len();
    if n == 0 || n > MAX_ID_LEN {
        return false;
    }
    let mut i: usize = 0;
    while i < n
        invariant
            t@ == id@,
            0 < n <= MAX_ID_LEN,
            n == t@.len(),
            i <= n,
            forall|k: int| 0 <= k < i ==> is_digit(#[trigger] t@[k]),
        decreases n - i,
    {
        let c = t.get_char(i);
        if !('0' <= c && c <= '9') {
            assert(!is_digit(t@[i as int]));
            return false;
        }
        i = i + 1;
    }
    true
}

/// Text of the list query: every customer by ascending id, at most 1000
/// rows; rows beyond that are not fetched.
pub open spec fn list_query_text(cfg: WarehouseConfig) -> Seq<char> {
    "SELECT * FROM "@ + cfg.table_path() + " ORDER BY customer_id ASC LIMIT 1000"@
}

/// Text of the lookup of one customer by id.
pub open spec fn get_query_text(cfg: WarehouseConfig, id: Seq<char>) -> Seq<char> {
    "SELECT * FROM "@ + cfg.table_path() + " WHERE customer_id = "@ + id + " LIMIT 1"@
}

/// The query text a spec renders to, where its id (if any) is valid.
pub open spec fn query_text(cfg: WarehouseConfig, spec: QuerySpec) -> Seq<char> {
    match spec {
        QuerySpec::ListAll => list_query_text(cfg),
        QuerySpec::GetById(id) => get_query_text(cfg, id@),
    }
}

pub open spec fn spec_is_valid(spec: QuerySpec) -> bool {
    match spec {
        QuerySpec::ListAll => true,
        QuerySpec::GetById(id) => valid_id(id@),
    }
}

fn table_path_string(cfg: &WarehouseConfig) -> (r: String)
    ensures
        r@ == cfg.table_path(),
{
    let mut s = String::from_str("`");
    s.append(cfg.project_id.as_str());
    s.append(".");
    s.append(cfg.dataset.as_str());
    s.append(".");
    s.append(cfg.table.as_str());
    s.append("`");
    s
}

/// Renders the list query.
pub fn list_query(cfg: &WarehouseConfig) -> (r: String)
    ensures
        r@ == list_query_text(*cfg),
{
    let mut s = String::from_str("SELECT * FROM ");
    s.append(table_path_string(cfg).as_str());
    s.append(" ORDER BY customer_id ASC LIMIT 1000");
    s
}

/// Renders the lookup query; an invalid id is refused before it reaches
/// the query text.
pub fn get_query(cfg: &WarehouseConfig, id: &String) -> (r: Result<String, AppError>)
    ensures
        r is Ok <==> valid_id(id@),
        r is Ok ==> r->Ok_0@ == get_query_text(*cfg, id@),
        r is Err ==> r->Err_0.kind == ErrorKind::Validation,
{
    if !check_id(id) {
        return Err(AppError::new(ErrorKind::Validation, String::from_str("invalid customer id")));
    }
    let mut s = String::from_str("SELECT * FROM ");
    s.append(table_path_string(cfg).as_str());
    s.append(" WHERE customer_id = ");
    s.append(id.as_str());
    s.append(" LIMIT 1");
    Ok(s)
}

/// Renders the query a spec describes.
pub fn render(cfg: &WarehouseConfig, spec: &QuerySpec) -> (r: Result<String, AppError>)
    ensures
        r is Ok <==> spec_is_valid(*spec),
        r is Ok ==> r->Ok_0@ == query_text(*cfg, *spec),
        r is Err ==> r->Err_0.kind == ErrorKind::Validation,
{
    match spec {
        QuerySpec::ListAll => Ok(list_query(cfg)),
        QuerySpec::GetById(id) => get_query(cfg, id),
    }
}

} // verus!
