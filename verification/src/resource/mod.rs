//! The SQL statements that read and write the service's records.
//!
//! A repository does not talk to the database itself: each of its methods
//! returns the `Statement` to run, as SQL text interleaved with bound values,
//! together with how its rows answer the request and whether it commits.
use vstd::prelude::*;

use crate::model::Timestamp;

pub mod account_repository;
pub mod asset_repository;
pub mod csrf_token_repository;
pub mod cursor_key_repository;
pub mod institution_repository;
pub mod transaction_repository;
pub mod user_repository;

use crate::model::Filter;

verus! {

/// The largest page that a list query returns.
pub const MAX_LIMIT: i64 = 100;

/// An error from the database.
#[derive(Debug)]
pub enum RepositoryError {
    /// No row matched.
    NotFound,
    /// Any other database error.
    Sqlx(sqlx::Error),
}

#[verifier::external_type_specification]
#[verifier::external_body]
pub struct ExSqlxError(sqlx::Error);

/// Tells apart `sqlx::Error::RowNotFound` from the other variants of
/// `sqlx::Error`; any other error is handed back as it came. Which variant
/// a given error is, and so which way the answer goes, the contract leaves
/// unsaid.
#[verifier::external_body]
fn classify_sqlx_error(e: sqlx::Error) -> (r: Result<(), sqlx::Error>)
    ensures
        r matches Err(other) ==> other == e,
{
    match e {
        sqlx::Error::RowNotFound => Ok(()),
        other => Err(other),
    }
}

impl RepositoryError {
    /// The repository error for a database error: a missing row is
    /// `NotFound`, anything else is kept as it is.
    pub fn from_sqlx(value: sqlx::Error) -> (r: Self)
        ensures
            r is NotFound || r == RepositoryError::Sqlx(value),
    {
        match classify_sqlx_error(value) {
            Ok(()) => RepositoryError::NotFound,
            Err(e) => RepositoryError::Sqlx(e),
        }
    }
}

/// Reads one record by id.
pub trait GetRepository<Id, Model> {
    fn get(&self, id: Id) -> Statement;
}

/// Reads a page of records that match a filter.
pub trait GetListRepository<Model, Filter> {
    fn get_list(&self, offset: i64, limit: Option<i64>, filter: Filter) -> Statement;
}

/// Creates a record.
pub trait CreateRepository<CreateModel, Model> {
    fn create(&self, create_model: CreateModel) -> Statement;
}

/// Writes a record over the stored one with the same id.
pub trait UpdateRepository<Model> {
    fn update(&self, model: Model) -> Statement;
}

/// Deletes a record by id.
pub trait DeleteRepository<Id, Model> {
    fn delete(&self, id: Id) -> Statement;
}

/// All operations on one kind of record.
pub trait Repository<Id, Model, CreateModel, Filter>:
    GetRepository<Id, Model> + GetListRepository<Model, Filter> + CreateRepository<CreateModel, Model> + UpdateRepository<
        Model,
    > + DeleteRepository<Id, Model> {

}

/// A value bound to a query parameter.
#[derive(Debug, Clone, PartialEq)]
pub enum BindValue {
    Uuid(u128),
    Text(String),
    Int(i64),
    Int32(i32),
    Timestamp(Timestamp),
    OptionalText(Option<String>),
    OptionalTimestamp(Option<Timestamp>),
}

/// The mathematical value of a bound value.
pub enum Param {
    Uuid(u128),
    Text(Seq<char>),
    Int(i64),
    Int32(i32),
    Timestamp(i64),
    OptionalText(Option<Seq<char>>),
    OptionalTimestamp(Option<i64>),
}

/// One piece of a query: SQL text, or a bound value.
pub enum SqlPart {
    Text(Seq<char>),
    Param(Param),
}

pub open spec fn option_string_view(o: Option<String>) -> Option<Seq<char>> {
    match o {
        Some(s) => Some(s@),
        None => None,
    }
}

pub open spec fn option_timestamp_view(o: Option<Timestamp>) -> Option<i64> {
    match o {
        Some(t) => Some(t.0),
        None => None,
    }
}

impl View for BindValue {
    type V = Param;

    open spec fn view(&self) -> Param {
        match self {
            BindValue::Uuid(u) => Param::Uuid(*u),
            BindValue::Text(s) => Param::Text(s@),
            BindValue::Int(i) => Param::Int(*i),
            BindValue::Int32(i) => Param::Int32(*i),
            BindValue::Timestamp(t) => Param::Timestamp(t.0),
            BindValue::OptionalText(o) => Param::OptionalText(option_string_view(*o)),
            BindValue::OptionalTimestamp(o) => Param::OptionalTimestamp(option_timestamp_view(*o)),
        }
    }
}

/// A piece of a query under construction.
#[derive(Debug, Clone, PartialEq)]
pub enum QueryPart {
    Sql(String),
    Bind(BindValue),
}

impl View for QueryPart {
    type V = SqlPart;

    open spec fn view(&self) -> SqlPart {
        match self {
            QueryPart::Sql(s) => SqlPart::Text(s@),
            QueryPart::Bind(b) => SqlPart::Param(b@),
        }
    }
}

/// A query: SQL text interleaved with bound values, in order.
#[derive(Debug, Clone, PartialEq)]
pub struct SqlQuery {
    pub parts: Vec<QueryPart>,
}

impl View for SqlQuery {
    type V = Seq<SqlPart>;

    open spec fn view(&self) -> Seq<SqlPart> {
        self.parts@.map_values(|p: QueryPart| p@)
    }
}

pub open spec fn text(s: &str) -> SqlPart {
    SqlPart::Text(s@)
}

impl SqlQuery {
    /// An empty query.
    pub fn empty() -> (q: Self)
        ensures
            q@ == Seq::<SqlPart>::empty(),
    {
        let q = SqlQuery { parts: Vec::new() };
        assert(q@ =~= Seq::<SqlPart>::empty());
        q
    }

    /// A query that starts with the given SQL text.
    pub fn new(sql: &str) -> (q: Self)
        ensures
            q@ == seq![text(sql)],
    {
        let mut q = Self::empty();
        q.push(sql);
        q
    }

    /// Appends SQL text.
    pub fn push(&mut self, sql: &str)
        ensures
            final(self)@ == old(self)@.push(text(sql)),
    {
        self.parts.push(QueryPart::Sql(sql.to_owned()));
        assert(self@ =~= old(self)@.push(text(sql)));
    }

    /// Appends a bound value.
    pub fn push_bind(&mut self, value: BindValue)
        ensures
            final(self)@ == old(self)@.push(SqlPart::Param(value@)),
    {
        let ghost v = value@;
        self.parts.push(QueryPart::Bind(value));
        assert(self@ =~= old(self)@.push(SqlPart::Param(v)));
    }

    /// Appends all parts of another query.
    pub fn append(&mut self, other: SqlQuery)
        ensures
            final(self)@ == old(self)@ + other@,
    {
        let ghost o = other@;
        let mut other = other;
        self.parts.append(&mut other.parts);
        assert(self@ =~= old(self)@ + o);
    }
}

/// A condition made of some text and a bound value.
pub open spec fn condition(before: Seq<char>, p: Param) -> Seq<SqlPart> {
    seq![SqlPart::Text(before), SqlPart::Param(p)]
}

/// Conditions joined by `AND`.
pub open spec fn joined(conds: Seq<Seq<SqlPart>>) -> Seq<SqlPart>
    decreases conds.len(),
{
    if conds.len() == 0 {
        Seq::empty()
    } else if conds.len() == 1 {
        conds[0]
    } else {
        joined(conds.drop_last()) + seq![SqlPart::Text(" AND "@)] + conds.last()
    }
}

/// A `WHERE` clause over the conditions, or nothing when there are none.
pub open spec fn where_clause(conds: Seq<Seq<SqlPart>>) -> Seq<SqlPart> {
    if conds.len() == 0 {
        Seq::empty()
    } else {
        seq![SqlPart::Text("WHERE "@)] + joined(conds)
    }
}

pub open spec fn query_views(conds: Seq<SqlQuery>) -> Seq<Seq<SqlPart>> {
    conds.map_values(|c: SqlQuery| c@)
}

/// A condition `<column> <bound value>`.
pub fn column_condition(column: &str, value: BindValue) -> (q: SqlQuery)
    ensures
        q@ == condition(column@, value@),
{
    let mut q = SqlQuery::new(column);
    q.push_bind(value);
    q
}

/// How the rows of a statement answer the request.
#[derive(Debug, Clone, Copy, PartialEq, Eq, Structural)]
pub enum Fetch {
    /// Exactly one row; none is a `NotFound` error.
    One,
    /// All rows, possibly none.
    All,
    /// The row if there is one; none is a `NotFound` error.
    Optional,
}

/// A statement to run on the database.
#[derive(Debug, Clone, PartialEq)]
pub struct Statement {
    /// The query.
    pub query: SqlQuery,
    /// How its rows answer the request.
    pub fetch: Fetch,
    /// Whether the session commits after the statement.
    pub commit: bool,
}

/// The offset that a list query uses: negative offsets count as 0.
pub open spec fn spec_offset(offset: i64) -> i64 {
    if offset < 0 {
        0
    } else {
        offset
    }
}

/// The page size that a list query uses: the requested size brought into
/// `1..=MAX_LIMIT`, or `MAX_LIMIT` when none is requested.
pub open spec fn spec_limit(limit: Option<i64>) -> i64 {
    match limit {
        Some(x) => if x < 1 {
            1
        } else if x > MAX_LIMIT {
            MAX_LIMIT
        } else {
            x
        },
        None => MAX_LIMIT,
    }
}

/// The offset and page size that a list query uses.
pub fn page(offset: i64, limit: Option<i64>) -> (r: (i64, i64))
    ensures
        r.0 == spec_offset(offset),
        r.1 == spec_limit(limit),
{
    let offset = if offset < 0 {
        0
    } else {
        offset
    };
    let limit = match limit {
        Some(x) => if x < 1 {
            1
        } else if x > MAX_LIMIT {
            MAX_LIMIT
        } else {
            x
        },
        None => MAX_LIMIT,
    };
    (offset, limit)
}

/// The paging suffix of a list query.
pub open spec fn paging(offset: i64, limit: Option<i64>) -> Seq<SqlPart> {
    seq![
        SqlPart::Text(" OFFSET "@),
        SqlPart::Param(Param::Int(spec_offset(offset))),
        SqlPart::Text(" LIMIT "@),
        SqlPart::Param(Param::Int(spec_limit(limit))),
    ]
}

/// Appends the paging suffix of a list query.
pub fn push_paging(query: &mut SqlQuery, offset: i64, limit: Option<i64>)
    ensures
        final(query)@ == old(query)@ + paging(offset, limit),
{
    let (o, l) = page(offset, limit);
    query.push(" OFFSET ");
    query.push_bind(BindValue::Int(o));
    query.push(" LIMIT ");
    query.push_bind(BindValue::Int(l));
    assert(query@ =~= old(query)@ + paging(offset, limit));
}

/// A list query: the base text, the filter's `WHERE` clause, then paging.
pub open spec fn list_query(base: Seq<char>, conds: Seq<Seq<SqlPart>>, offset: i64, limit: Option<i64>) -> Seq<SqlPart> {
    seq![SqlPart::Text(base)] + where_clause(conds) + paging(offset, limit)
}

/// The list statement over a base query, a filter and a page.
pub fn list_statement<F: Filter>(base: &str, filter: F, offset: i64, limit: Option<i64>) -> (s: Statement)
    ensures
        s.query@ == list_query(base@, filter.spec_conditions(), offset, limit),
        s.fetch == Fetch::All,
        !s.commit,
{
    let mut query = SqlQuery::new(base);
    filter.push(&mut query);
    push_paging(&mut query, offset, limit);
    Statement { query, fetch: Fetch::All, commit: false }
}

/// SQL texts and bound values taken in turn: the first text, the first
/// value, the second text, and so on; a text may be left over at the end.
pub open spec fn interleave(texts: Seq<Seq<char>>, params: Seq<Param>) -> Seq<SqlPart>
    decreases texts.len(),
{
    if texts.len() == 0 {
        Seq::empty()
    } else if params.len() == 0 {
        seq![SqlPart::Text(texts[0])]
    } else {
        seq![SqlPart::Text(texts[0]), SqlPart::Param(params[0])] + interleave(texts.drop_first(), params.drop_first())
    }
}

/// The values that a query binds, in the order they appear.
pub open spec fn bound_params(q: Seq<SqlPart>) -> Seq<Param>
    decreases q.len(),
{
    if q.len() == 0 {
        Seq::empty()
    } else {
        (match q[0] {
            SqlPart::Param(p) => seq![p],
            SqlPart::Text(_) => Seq::<Param>::empty(),
        }) + bound_params(q.drop_first())
    }
}

/// A query written as texts with a value between each two binds exactly
/// those values, in order.
pub proof fn lemma_interleave_binds(texts: Seq<Seq<char>>, params: Seq<Param>)
    requires
        texts.len() == params.len() + 1,
    ensures
        bound_params(interleave(texts, params)) == params,
    decreases texts.len(),
{
    let q = interleave(texts, params);
    if params.len() == 0 {
        assert(q =~= seq![SqlPart::Text(texts[0])]);
        assert(q.drop_first() =~= Seq::<SqlPart>::empty());
        assert(bound_params(q.drop_first()) =~= Seq::<Param>::empty());
        assert(bound_params(q) =~= params);
    } else {
        let rest = interleave(texts.drop_first(), params.drop_first());
        lemma_interleave_binds(texts.drop_first(), params.drop_first());
        let q1 = seq![SqlPart::Param(params[0])] + rest;
        assert(q =~= seq![SqlPart::Text(texts[0]), SqlPart::Param(params[0])] + rest);
        assert(q.drop_first() =~= q1);
        assert(q1.drop_first() =~= rest);
        assert(q1[0] == SqlPart::Param(params[0]));
        assert(bound_params(q1) =~= seq![params[0]] + params.drop_first());
        assert(bound_params(q) == bound_params(q1));
        assert(bound_params(q) =~= params);
    }
}

pub open spec fn str_views(texts: Seq<&str>) -> Seq<Seq<char>> {
    texts.map_values(|t: &str| t@)
}

pub open spec fn bind_views(values: Seq<BindValue>) -> Seq<Param> {
    values.map_values(|v: BindValue| v@)
}

pub open spec fn rest<A>(s: Seq<A>, i: int) -> Seq<A> {
    if i <= s.len() {
        s.skip(i)
    } else {
        Seq::empty()
    }
}

/// A statement whose query takes the texts and values in turn.
pub fn interleaved(texts: &Vec<&str>, values: Vec<BindValue>, fetch: Fetch, commit: bool) -> (s: Statement)
    requires
        texts@.len() == values@.len() || texts@.len() == values@.len() + 1,
    ensures
        s.query@ == interleave(str_views(texts@), bind_views(values@)),
        s.fetch == fetch,
        s.commit == commit,
{
    let ghost tv = str_views(texts@);
    let ghost pv = bind_views(values@);
    let mut query = SqlQuery::empty();
    let mut values = values;
    let n = texts.len();
    let mut i: usize = 0;
    assert(tv.skip(0) =~= tv);
    assert(bind_views(values@) =~= pv.skip(0));
    while i < n
        invariant
            n == texts@.len(),
            tv == str_views(texts@),
            pv.len() == n || pv.len() + 1 == n,
            i <= n,
            bind_views(values@) == rest(pv, i as int),
            query@ + interleave(rest(tv, i as int), rest(pv, i as int)) == interleave(tv, pv),
        decreases n - i,
    {
        let ghost before = query@;
        query.push(texts[i]);
        proof {
            assert(rest(tv, i as int)[0] == texts@[i as int]@);
            assert(rest(tv, i as int).drop_first() =~= rest(tv, i + 1));
        }
        if values.len() > 0 {
            let ghost vs = values@;
            let v = values.remove(0);
            query.push_bind(v);
            proof {
                assert(rest(pv, i as int).len() > 0);
                assert(rest(pv, i as int)[0] == v@);
                assert(bind_views(values@) =~= bind_views(vs).drop_first());
                assert(rest(pv, i as int).drop_first() =~= rest(pv, i + 1));
                assert(query@ =~= before + seq![SqlPart::Text(rest(tv, i as int)[0]), SqlPart::Param(rest(pv, i as int)[0])]);
            }
        } else {
            proof {
                assert(rest(pv, i as int).len() == 0);
                assert(i + 1 == n);
                assert(rest(tv, i + 1).len() == 0);
                assert(interleave(rest(tv, i + 1), rest(pv, i + 1)) == Seq::<SqlPart>::empty());
                assert(query@ + interleave(rest(tv, i + 1), rest(pv, i + 1)) =~= query@);
                assert(bind_views(values@) =~= rest(pv, i + 1));
            }
        }
        i = i + 1;
    }
    proof {
        assert(rest(tv, n as int).len() == 0);
        assert(query@ + interleave(rest(tv, n as int), rest(pv, n as int)) =~= query@);
    }
    Statement { query, fetch, commit }
}

/// The condition `<column> <value>` when there is a value; none otherwise.
pub open spec fn optional_condition_views(column: Seq<char>, value: Option<Param>) -> Seq<Seq<SqlPart>> {
    match value {
        Some(v) => seq![condition(column, v)],
        None => Seq::empty(),
    }
}

pub open spec fn option_param(value: Option<BindValue>) -> Option<Param> {
    match value {
        Some(v) => Some(v@),
        None => None,
    }
}

/// Appends the condition `<column> <value>` when there is a value.
pub fn push_optional_condition(conds: &mut Vec<SqlQuery>, column: &str, value: Option<BindValue>)
    ensures
        query_views(final(conds)@) == query_views(old(conds)@) + optional_condition_views(column@, option_param(value)),
{
    if let Some(v) = value {
        conds.push(column_condition(column, v));
    }
    assert(query_views(conds@) =~= query_views(old(conds)@) + optional_condition_views(column@, option_param(value)));
}

/// Conditions, each preceded by `AND`.
pub open spec fn and_clause(conds: Seq<Seq<SqlPart>>) -> Seq<SqlPart>
    decreases conds.len(),
{
    if conds.len() == 0 {
        Seq::empty()
    } else {
        and_clause(conds.drop_last()) + seq![SqlPart::Text(" AND "@)] + conds.last()
    }
}

/// Appends each condition, preceded by `AND`.
pub fn push_and_conditions(query: &mut SqlQuery, conds: Vec<SqlQuery>)
    ensures
        final(query)@ == old(query)@ + and_clause(query_views(conds@)),
{
    let ghost cv = query_views(conds@);
    let total = conds.len();
    assert(cv.len() == total);
    let ghost start = query@;
    let mut conds = conds;
    let mut k: usize = 0;
    assert(query_views(conds@) =~= cv.skip(0));
    assert(cv.take(0) =~= Seq::<Seq<SqlPart>>::empty());
    assert(start + and_clause(cv.take(0)) =~= start);
    while conds.len() > 0
        invariant
            k + conds@.len() == cv.len(),
            cv.len() <= usize::MAX,
            query_views(conds@) == cv.skip(k as int),
            query@ == start + and_clause(cv.take(k as int)),
        decreases conds@.len(),
    {
        let ghost before = conds@;
        let c = conds.remove(0);
        proof {
            assert(c@ == query_views(before)[0]);
            assert(query_views(conds@) =~= query_views(before).drop_first());
            assert(query_views(before).drop_first() =~= cv.skip(k + 1));
            assert(cv.take(k + 1).drop_last() =~= cv.take(k as int));
            assert(cv.take(k + 1).last() == cv[k as int]);
            assert(cv[k as int] == cv.skip(k as int)[0]);
        }
        query.push(" AND ");
        query.append(c);
        proof {
            assert(start + and_clause(cv.take(k as int)) + seq![SqlPart::Text(" AND "@)] + cv[k as int]
                =~= start + (and_clause(cv.take(k as int)) + seq![SqlPart::Text(" AND "@)] + cv[k as int]));
        }
        k = k + 1;
    }
    assert(cv.take(cv.len() as int) =~= cv);
}

/// Appends a `WHERE` clause made of the conditions, joined by `AND`; when
/// there are no conditions nothing is appended.
pub fn push_where(query: &mut SqlQuery, conds: Vec<SqlQuery>)
    ensures
        final(query)@ == old(query)@ + where_clause(query_views(conds@)),
{
    let ghost cv = query_views(conds@);
    assert(cv.len() == conds@.len());
    if conds.len() == 0 {
        assert(old(query)@ + where_clause(cv) =~= old(query)@);
        return;
    }
    query.push("WHERE ");
    let ghost start = query@;
    let mut conds = conds;
    let mut k: usize = 0;
    assert(query_views(conds@) =~= cv.skip(0));
    while conds.len() > 0
        invariant
            k + conds@.len() == cv.len(),
            cv.len() > 0,
            cv.len() <= usize::MAX,
            query_views(conds@) == cv.skip(k as int),
            k == 0 ==> query@ == start,
            k > 0 ==> query@ == start + joined(cv.take(k as int)),
        decreases conds@.len(),
    {
        let ghost before = conds@;
        let c = conds.remove(0);
        proof {
            assert(c@ == query_views(before)[0]);
            assert(query_views(conds@) =~= query_views(before).drop_first());
            assert(query_views(before).drop_first() =~= cv.skip(k + 1));
            assert(cv.take(k + 1).drop_last() =~= cv.take(k as int));
            assert(cv.take(k + 1).last() == cv[k as int]);
            assert(cv[k as int] == cv.skip(k as int)[0]);
        }
        if k > 0 {
            query.push(" AND ");
        }
        query.append(c);
        proof {
            if k == 0 {
                assert(cv.take(1).len() == 1);
                assert(joined(cv.take(1)) == cv.take(1)[0]);
            } else {
                assert(start + joined(cv.take(k as int)) + seq![SqlPart::Text(" AND "@)] + cv[k as int]
                    =~= start + (joined(cv.take(k as int)) + seq![SqlPart::Text(" AND "@)] + cv[k as int]));
            }
        }
        k = k + 1;
    }
    proof {
        assert(cv.take(cv.len() as int) =~= cv);
        assert(old(query)@.push(SqlPart::Text("WHERE "@)) + joined(cv)
            =~= old(query)@ + (seq![SqlPart::Text("WHERE "@)] + joined(cv)));
    }
}

/// Every list reads from a non-negative offset a page of 1 to `MAX_LIMIT`
/// rows.
pub proof fn lemma_page_bounds(offset: i64, limit: Option<i64>)
    ensures
        0 <= spec_offset(offset),
        1 <= spec_limit(limit) <= MAX_LIMIT,
        offset >= 0 ==> spec_offset(offset) == offset,
{
}

/// A filter narrows a list with a `WHERE` clause exactly when it sets a
/// field, and the clause then starts with `WHERE`.
pub proof fn lemma_where_clause_iff_conditions(conds: Seq<Seq<SqlPart>>)
    ensures
        (where_clause(conds).len() == 0) <==> (conds.len() == 0),
        conds.len() > 0 ==> where_clause(conds)[0] == SqlPart::Text("WHERE "@),
{
}

} // verus!
