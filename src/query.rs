//! Logical select queries, built with sea_query as SQLite text with bound parameters.
use vstd::prelude::*;
use sea_query::ExprTrait;

verus! {

#[verifier::external_type_specification]
#[verifier::external_body]
pub struct ExSelectStatement(sea_query::SelectStatement);

/// One projected item of a select.
pub ghost enum SelectItem {
    /// Every column (`*`).
    All,
    /// One named column, quoted.
    Column(Seq<char>),
    /// The constant `1`, for existence checks.
    One,
}

/// What a select statement holds: its tables, its projected items, and its
/// `column = value` conditions joined by `AND`, each in the order added.
pub ghost struct SelectView {
    pub tables: Seq<Seq<char>>,
    pub items: Seq<SelectItem>,
    pub filters: Seq<(Seq<char>, Seq<char>)>,
}

pub open spec fn empty_select() -> SelectView {
    SelectView { tables: seq![], items: seq![], filters: seq![] }
}

/// The parts recorded in a sea_query select statement.
pub uninterp spec fn select_parts(s: sea_query::SelectStatement) -> SelectView;

/// The SQLite text that sea_query builds for a select with these parts,
/// with a `?` placeholder in place of each filter value.
pub uninterp spec fn sqlite_text(q: SelectView) -> Seq<char>;

/// A query ready to run: its text, and the values to bind to its
/// placeholders, in order.
pub struct SqlQuery {
    pub text: String,
    pub params: Vec<String>,
}

/// The values of a select's filters, in order.
pub open spec fn filter_values(q: SelectView) -> Seq<Seq<char>> {
    q.filters.map_values(|f: (Seq<char>, Seq<char>)| f.1)
}

impl SqlQuery {
    /// The query is the text built for `q`, with the values of its filters
    /// as parameters.
    pub open spec fn is_query_for(&self, q: SelectView) -> bool {
        &&& self.text@ == sqlite_text(q)
        &&& self.params@.map_values(|p: String| p@) == filter_values(q)
    }
}

/// Relies on `sea_query::Query::select`: a statement with nothing in it.
#[verifier::external_body]
fn new_select() -> (r: sea_query::SelectStatement)
    ensures
        select_parts(r) == empty_select(),
{
    sea_query::Query::select()
}

/// Relies on `SelectStatement::from`: appends one table.
#[verifier::external_body]
fn add_table(s: &mut sea_query::SelectStatement, table: &String)
    ensures
        select_parts(*final(s)) == (SelectView {
            tables: select_parts(*old(s)).tables.push(table@),
            ..select_parts(*old(s))
        }),
{
    s.from(sea_query::Alias::new(table.as_str()));
}

/// Relies on `SelectStatement::column` with a named column: appends it.
#[verifier::external_body]
fn add_column(s: &mut sea_query::SelectStatement, col: &String)
    ensures
        select_parts(*final(s)) == (SelectView {
            items: select_parts(*old(s)).items.push(SelectItem::Column(col@)),
            ..select_parts(*old(s))
        }),
{
    s.column(sea_query::Alias::new(col.as_str()));
}

/// Relies on `SelectStatement::column` with `Asterisk`: appends `*`.
#[verifier::external_body]
fn add_all_columns(s: &mut sea_query::SelectStatement)
    ensures
        select_parts(*final(s)) == (SelectView {
            items: select_parts(*old(s)).items.push(SelectItem::All),
            ..select_parts(*old(s))
        }),
{
    s.column(sea_query::Asterisk);
}

/// Relies on `SelectStatement::expr` with the custom expression `1`:
/// appends it, written as it is and bound to no parameter.
#[verifier::external_body]
fn add_one(s: &mut sea_query::SelectStatement)
    ensures
        select_parts(*final(s)) == (SelectView {
            items: select_parts(*old(s)).items.push(SelectItem::One),
            ..select_parts(*old(s))
        }),
{
    s.expr(sea_query::Expr::cust("1"));
}

/// Relies on `SelectStatement::and_where` with `Expr::col(col).eq(val)`:
/// appends the condition `col = val`.
#[verifier::external_body]
fn add_filter(s: &mut sea_query::SelectStatement, col: &String, val: &String)
    ensures
        select_parts(*final(s)) == (SelectView {
            filters: select_parts(*old(s)).filters.push((col@, val@)),
            ..select_parts(*old(s))
        }),
{
    s.and_where(sea_query::Expr::col(sea_query::Alias::new(col.as_str())).eq(val.as_str()));
}

/// Relies on `SelectStatement::build` with `SqliteQueryBuilder`: the text
/// with placeholders, and the values collected while writing it. The only
/// values these statements hold are the string values of their filters, in
/// the order the filters were added.
#[verifier::external_body]
fn build(s: &sea_query::SelectStatement) -> (r: (String, Vec<Option<String>>))
    ensures
        r.0@ == sqlite_text(select_parts(*s)),
        r.1@.len() == select_parts(*s).filters.len(),
        forall|i: int|
            0 <= i < r.1@.len() ==> r.1@[i] is Some && r.1@[i]->0@ == select_parts(*s).filters[i].1,
{
    let (text, values) = s.build(sea_query::SqliteQueryBuilder);
    let params = values.0.into_iter().map(|v| match v {
        sea_query::Value::String(x) => x,
        _ => None,
    }).collect();
    (text, params)
}

fn finish(s: &sea_query::SelectStatement) -> (r: SqlQuery)
    ensures
        r.is_query_for(select_parts(*s)),
{
    let (text, values) = build(s);
    let mut params: Vec<String> = Vec::new();
    let mut i: usize = 0;
    while i < values.len()
        invariant
            i <= values@.len(),
            values@.len() == select_parts(*s).filters.len(),
            forall|k: int|
                0 <= k < values@.len() ==> values@[k] is Some && values@[k]->0@ == select_parts(*s).filters[k].1,
            params@.len() == i,
            forall|k: int| 0 <= k < i ==> params@[k]@ == select_parts(*s).filters[k].1,
        decreases values@.len() - i,
    {
        match &values[i] {
            Some(v) => params.push(v.clone()),
            None => {
                assert(false);
            },
        }
        i = i + 1;
    }
    let r = SqlQuery { text, params };
    assert(r.params@.map_values(|p: String| p@) =~= filter_values(select_parts(*s)));
    r
}

/// The items projected for a list of columns: `*` when it is empty, else
/// each column in order.
pub open spec fn projection(cols: Seq<String>) -> Seq<SelectItem> {
    if cols.len() == 0 {
        seq![SelectItem::All]
    } else {
        Seq::new(cols.len(), |i: int| SelectItem::Column(cols[i]@))
    }
}

/// The select of `items` from `table` where each `(column, value)` of
/// `filters` holds.
pub open spec fn select_view(
    table: Seq<char>,
    items: Seq<SelectItem>,
    filters: Seq<(Seq<char>, Seq<char>)>,
) -> SelectView {
    SelectView { tables: seq![table], items, filters }
}

/// Builds `SELECT <columns or *> FROM table WHERE filters`, the filter
/// values bound as parameters.
pub fn select_columns(table: &String, cols: &Vec<String>, filters: &Vec<(String, String)>) -> (r:
    SqlQuery)
    ensures
        r.is_query_for(
            select_view(table@, projection(cols@), filters@.map_values(|f: (String, String)| (f.0@, f.1@))),
        ),
{
    let mut s = new_select();
    if cols.len() == 0 {
        add_all_columns(&mut s);
    } else {
        let mut i: usize = 0;
        assert(Seq::new(0, |k: int| SelectItem::Column(cols@[k]@)) =~= Seq::<SelectItem>::empty());
        while i < cols.len()
            invariant
                i <= cols.len(),
                cols.len() > 0,
                select_parts(s) == (SelectView {
                    items: Seq::new(i as nat, |k: int| SelectItem::Column(cols@[k]@)),
                    ..empty_select()
                }),
            decreases cols.len() - i,
        {
            add_column(&mut s, &cols[i]);
            i = i + 1;
            assert(select_parts(s).items =~= Seq::new(i as nat, |k: int| SelectItem::Column(cols@[k]@)));
        }
        assert(select_parts(s).items =~= projection(cols@));
    }
    add_table(&mut s, table);
    add_filters(&mut s, filters);
    finish(&s)
}

/// Builds `SELECT 1 FROM table WHERE filters`, the filter values bound as
/// parameters.
pub fn select_one(table: &String, filters: &Vec<(String, String)>) -> (r: SqlQuery)
    ensures
        r.is_query_for(
            select_view(table@, seq![SelectItem::One], filters@.map_values(|f: (String, String)| (f.0@, f.1@))),
        ),
{
    let mut s = new_select();
    add_one(&mut s);
    add_table(&mut s, table);
    add_filters(&mut s, filters);
    finish(&s)
}

fn add_filters(s: &mut sea_query::SelectStatement, filters: &Vec<(String, String)>)
    requires
        select_parts(*old(s)).filters.len() == 0,
    ensures
        select_parts(*final(s)) == (SelectView {
            filters: filters@.map_values(|f: (String, String)| (f.0@, f.1@)),
            ..select_parts(*old(s))
        }),
{
    let ghost start = select_parts(*s);
    let mut i: usize = 0;
    assert(filters@.subrange(0, 0).map_values(|f: (String, String)| (f.0@, f.1@)) =~= start.filters);
    while i < filters.len()
        invariant
            i <= filters.len(),
            select_parts(*s) == (SelectView {
                filters: filters@.subrange(0, i as int).map_values(|f: (String, String)| (f.0@, f.1@)),
                ..start
            }),
        decreases filters.len() - i,
    {
        add_filter(s, &filters[i].0, &filters[i].1);
        i = i + 1;
        assert(filters@.subrange(0, i as int).map_values(|f: (String, String)| (f.0@, f.1@))
            =~= filters@.subrange(0, i - 1).map_values(|f: (String, String)| (f.0@, f.1@)).push((filters@[i - 1].0@, filters@[i - 1].1@)));
    }
    assert(filters@.subrange(0, i as int) =~= filters@);
}

} // verus!
