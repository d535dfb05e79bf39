use vstd::prelude::*;

verus! {

/// A value bound to a `?` (or named) parameter of a statement.
///
/// `Real` holds the IEEE-754 bit pattern of a double; nothing here
/// computes on it.
#[derive(Clone, Debug, PartialEq, Eq)]
pub enum SqlValue {
    Null,
    Integer(i64),
    Real(u64),
    Text(String),
    Bool(bool),
}

/// The mathematical model of a bound value.
pub enum SqlValueView {
    Null,
    Integer(i64),
    Real(u64),
    Text(Seq<char>),
    Bool(bool),
}

impl View for SqlValue {
    type V = SqlValueView;

    open spec fn view(&self) -> SqlValueView {
        match self {
            SqlValue::Null => SqlValueView::Null,
            SqlValue::Integer(i) => SqlValueView::Integer(*i),
            SqlValue::Real(b) => SqlValueView::Real(*b),
            SqlValue::Text(s) => SqlValueView::Text(s@),
            SqlValue::Bool(b) => SqlValueView::Bool(*b),
        }
    }
}

/// A statement of the library: its SQL text and the values bound to its
/// parameters, in the order of the parameters.
#[derive(Clone, Debug, PartialEq, Eq)]
pub struct Statement {
    pub sql: &'static str,
    pub params: Vec<SqlValue>,
}

/// The mathematical model of a statement.
pub struct StatementView {
    pub sql: Seq<char>,
    pub params: Seq<SqlValueView>,
}

impl View for Statement {
    type V = StatementView;

    open spec fn view(&self) -> StatementView {
        StatementView { sql: self.sql@, params: self.params@.map_values(|v: SqlValue| v@) }
    }
}

/// The model of a statement with the given text and bound values.
pub open spec fn statement_view(sql: &'static str, params: Seq<SqlValueView>) -> StatementView {
    StatementView { sql: sql@, params }
}

/// The model of an optional text: a text value, or `NULL`.
pub open spec fn text_or_null_view(s: Option<Seq<char>>) -> SqlValueView {
    match s {
        Some(t) => SqlValueView::Text(t),
        None => SqlValueView::Null,
    }
}

/// Binds a text.
pub fn text(s: &str) -> (r: SqlValue)
    ensures
        r@ == SqlValueView::Text(s@),
{
    SqlValue::Text(String::from_str(s))
}

/// The model of an optional text as it is bound.
pub open spec fn optional_text_view(s: Option<String>) -> SqlValueView {
    text_or_null_view(
        match s {
            Some(t) => Some(t@),
            None => None,
        },
    )
}

/// Binds an optional text: `NULL` where there is none.
pub fn text_or_null(s: &Option<String>) -> (r: SqlValue)
    ensures
        r@ == optional_text_view(*s),
{
    match s {
        Some(t) => SqlValue::Text(t.clone()),
        None => SqlValue::Null,
    }
}

/// A statement that binds no value.
pub fn unbound(sql: &'static str) -> (r: Statement)
    ensures
        r@ == statement_view(sql, seq![]),
{
    let r = Statement { sql, params: Vec::new() };
    assert(r@.params =~= Seq::<SqlValueView>::empty());
    r
}

/// A statement that binds one value.
pub fn bound1(sql: &'static str, a: SqlValue) -> (r: Statement)
    ensures
        r@ == statement_view(sql, seq![a@]),
{
    let ghost va = a@;
    let mut params = Vec::new();
    params.push(a);
    let r = Statement { sql, params };
    assert(r@.params =~= seq![va]);
    r
}

/// A statement that binds two values.
pub fn bound2(sql: &'static str, a: SqlValue, b: SqlValue) -> (r: Statement)
    ensures
        r@ == statement_view(sql, seq![a@, b@]),
{
    let ghost (va, vb) = (a@, b@);
    let mut params = Vec::new();
    params.push(a);
    params.push(b);
    let r = Statement { sql, params };
    assert(r@.params =~= seq![va, vb]);
    r
}

/// A statement that binds three values.
pub fn bound3(sql: &'static str, a: SqlValue, b: SqlValue, c: SqlValue) -> (r: Statement)
    ensures
        r@ == statement_view(sql, seq![a@, b@, c@]),
{
    let ghost (va, vb, vc) = (a@, b@, c@);
    let mut params = Vec::new();
    params.push(a);
    params.push(b);
    params.push(c);
    let r = Statement { sql, params };
    assert(r@.params =~= seq![va, vb, vc]);
    r
}

} // verus!
