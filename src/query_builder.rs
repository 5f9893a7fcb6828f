//! SOQL query construction. A `QueryBuilder` starts in the `NeedsFrom` state,
//! where only `from` is offered; the clauses and `build` exist in the
//! `Complete` state only, so a query without a FROM clause cannot be built.
use crate::text::{decimal, decimal_text, join, join_with, views};
use std::marker::PhantomData;
use vstd::prelude::*;

verus! {

/// State of a builder that still lacks its FROM clause.
#[derive(Debug, Clone)]
pub struct NeedsFrom;

/// State of a builder whose FROM clause is set.
#[derive(Debug, Clone)]
pub struct Complete;

/// Builder of a SELECT query.
#[derive(Debug)]
pub struct QueryBuilder<State = NeedsFrom> {
    fields: Vec<String>,
    from: String,
    where_clauses: Vec<String>,
    order_by: Option<String>,
    limit: Option<u32>,
    offset: Option<u32>,
    _state: PhantomData<State>,
}

/// The parts of a SELECT query, as text.
pub struct SelectParts {
    pub fields: Seq<Seq<char>>,
    pub from: Seq<char>,
    pub conditions: Seq<Seq<char>>,
    pub order_by: Option<Seq<char>>,
    pub limit: Option<u32>,
    pub offset: Option<u32>,
}

pub open spec fn opt_view(o: Option<String>) -> Option<Seq<char>> {
    match o {
        Some(s) => Some(s@),
        None => None,
    }
}

/// ` WHERE ` and the conditions joined by ` AND `, or nothing without conditions.
pub open spec fn where_text(conditions: Seq<Seq<char>>) -> Seq<char> {
    if conditions.len() == 0 {
        Seq::empty()
    } else {
        " WHERE "@ + join(conditions, " AND "@)
    }
}

pub open spec fn order_text(order_by: Option<Seq<char>>) -> Seq<char> {
    match order_by {
        Some(o) => " ORDER BY "@ + o,
        None => Seq::empty(),
    }
}

pub open spec fn limit_text(limit: Option<u32>) -> Seq<char> {
    match limit {
        Some(n) => " LIMIT "@ + decimal(n as nat),
        None => Seq::empty(),
    }
}

pub open spec fn offset_text(offset: Option<u32>) -> Seq<char> {
    match offset {
        Some(n) => " OFFSET "@ + decimal(n as nat),
        None => Seq::empty(),
    }
}

/// The query text of a SELECT with the given parts.
pub open spec fn select_text(q: SelectParts) -> Seq<char> {
    "SELECT "@ + join(q.fields, ", "@) + " FROM "@ + q.from + where_text(q.conditions)
        + order_text(q.order_by) + limit_text(q.limit) + offset_text(q.offset)
}

impl<State> View for QueryBuilder<State> {
    type V = SelectParts;

    closed spec fn view(&self) -> SelectParts {
        SelectParts {
            fields: views(self.fields@),
            from: self.from@,
            conditions: views(self.where_clauses@),
            order_by: opt_view(self.order_by),
            limit: self.limit,
            offset: self.offset,
        }
    }
}

fn strings_of(items: &[&str]) -> (r: Vec<String>)
    ensures
        views(r@) == items@.map_values(|s: &str| s@),
{
    let mut out: Vec<String> = Vec::new();
    let mut i: usize = 0;
    while i < items.len()
        invariant
            i <= items@.len(),
            views(out@) == items@.take(i as int).map_values(|s: &str| s@),
        decreases items@.len() - i,
    {
        let ghost before = out@;
        let item: &str = items[i];
        let owned = item.to_owned();
        assert(owned@ == items@[i as int]@);
        out.push(owned);
        assert(out@ == before.push(owned));
        i = i + 1;
        assert(items@.take(i as int) =~= items@.take(i - 1).push(items@[i - 1]));
        assert(views(out@) =~= views(before).push(owned@));
        assert(items@.take(i as int).map_values(|s: &str| s@) =~= items@.take(i - 1).map_values(
            |s: &str| s@,
        ).push(items@[i - 1]@));
    }
    assert(items@.take(items@.len() as int) =~= items@);
    out
}

fn pushed(v: Vec<String>, s: &str) -> (r: Vec<String>)
    ensures
        views(r@) == views(v@).push(s@),
{
    let ghost before = v@;
    let mut v = v;
    v.push(s.to_owned());
    assert(views(v@) =~= views(before).push(s@));
    v
}

/// Appends ` WHERE ` and the conditions joined by ` AND `, when there are any.
fn append_where(query: &mut String, conditions: &Vec<String>)
    ensures
        final(query)@ == old(query)@ + where_text(views(conditions@)),
{
    if conditions.len() > 0 {
        query.append(" WHERE ");
        let joined = join_with(conditions, " AND ");
        query.append(joined.as_str());
    } else {
        assert(old(query)@ + Seq::<char>::empty() =~= old(query)@);
    }
}

fn append_order(query: &mut String, order_by: &Option<String>)
    ensures
        final(query)@ == old(query)@ + order_text(opt_view(*order_by)),
{
    match order_by {
        Some(o) => {
            query.append(" ORDER BY ");
            query.append(o.as_str());
        },
        None => {
            assert(old(query)@ + Seq::<char>::empty() =~= old(query)@);
        },
    }
}

fn append_limit(query: &mut String, limit: Option<u32>)
    ensures
        final(query)@ == old(query)@ + limit_text(limit),
{
    match limit {
        Some(n) => {
            query.append(" LIMIT ");
            let digits = decimal_text(n as u64);
            query.append(digits.as_str());
        },
        None => {
            assert(old(query)@ + Seq::<char>::empty() =~= old(query)@);
        },
    }
}

fn append_offset(query: &mut String, offset: Option<u32>)
    ensures
        final(query)@ == old(query)@ + offset_text(offset),
{
    match offset {
        Some(n) => {
            query.append(" OFFSET ");
            let digits = decimal_text(n as u64);
            query.append(digits.as_str());
        },
        None => {
            assert(old(query)@ + Seq::<char>::empty() =~= old(query)@);
        },
    }
}

impl QueryBuilder<NeedsFrom> {
    /// Starts a query that selects `fields`, in that order.
    pub fn select(fields: &[&str]) -> (r: Self)
        ensures
            r@.fields == fields@.map_values(|s: &str| s@),
            r@.from == Seq::<char>::empty(),
            r@.conditions == Seq::<Seq<char>>::empty(),
            r@.order_by is None,
            r@.limit is None,
            r@.offset is None,
    {
        let r = QueryBuilder {
            fields: strings_of(fields),
            from: String::new(),
            where_clauses: Vec::new(),
            order_by: None,
            limit: None,
            offset: None,
            _state: PhantomData,
        };
        assert(views(r.where_clauses@) =~= Seq::<Seq<char>>::empty());
        r
    }

    /// Names the object queried; the result accepts the other clauses.
    pub fn from(self, sobject: &str) -> (r: QueryBuilder<Complete>)
        ensures
            r@ == (SelectParts { from: sobject@, ..self@ }),
    {
        QueryBuilder {
            fields: self.fields,
            from: sobject.to_owned(),
            where_clauses: self.where_clauses,
            order_by: self.order_by,
            limit: self.limit,
            offset: self.offset,
            _state: PhantomData,
        }
    }
}

impl QueryBuilder<Complete> {
    /// Adds a condition; all conditions must hold.
    pub fn where_clause(self, condition: &str) -> (r: Self)
        ensures
            r@ == (SelectParts { conditions: self@.conditions.push(condition@), ..self@ }),
    {
        QueryBuilder { where_clauses: pushed(self.where_clauses, condition), ..self }
    }

    /// Adds a further condition; the same as `where_clause`.
    pub fn and(self, condition: &str) -> (r: Self)
        ensures
            r@ == (SelectParts { conditions: self@.conditions.push(condition@), ..self@ }),
    {
        self.where_clause(condition)
    }

    /// Orders by `field`, replacing an earlier ordering.
    pub fn order_by(self, field: &str) -> (r: Self)
        ensures
            r@ == (SelectParts { order_by: Some(field@), ..self@ }),
    {
        QueryBuilder { order_by: Some(field.to_owned()), ..self }
    }

    /// Orders by `field`, ascending.
    pub fn order_by_asc(self, field: &str) -> (r: Self)
        ensures
            r@ == (SelectParts { order_by: Some(field@ + " ASC"@), ..self@ }),
    {
        let mut order = field.to_owned();
        order.append(" ASC");
        QueryBuilder { order_by: Some(order), ..self }
    }

    /// Orders by `field`, descending.
    pub fn order_by_desc(self, field: &str) -> (r: Self)
        ensures
            r@ == (SelectParts { order_by: Some(field@ + " DESC"@), ..self@ }),
    {
        let mut order = field.to_owned();
        order.append(" DESC");
        QueryBuilder { order_by: Some(order), ..self }
    }

    /// Returns at most `limit` rows.
    pub fn limit(self, limit: u32) -> (r: Self)
        ensures
            r@ == (SelectParts { limit: Some(limit), ..self@ }),
    {
        QueryBuilder { limit: Some(limit), ..self }
    }

    /// Skips the first `offset` rows.
    pub fn offset(self, offset: u32) -> (r: Self)
        ensures
            r@ == (SelectParts { offset: Some(offset), ..self@ }),
    {
        QueryBuilder { offset: Some(offset), ..self }
    }

    /// The query text.
    pub fn build(self) -> (r: String)
        ensures
            r@ == select_text(self@),
    {
        let mut query = "SELECT ".to_owned();
        let fields = join_with(&self.fields, ", ");
        query.append(fields.as_str());
        query.append(" FROM ");
        query.append(self.from.as_str());
        append_where(&mut query, &self.where_clauses);
        append_order(&mut query, &self.order_by);
        append_limit(&mut query, self.limit);
        append_offset(&mut query, self.offset);
        query
    }
}

/// Builder of a `SELECT COUNT()` query.
pub struct CountQueryBuilder {
    from: String,
    where_clauses: Vec<String>,
}

/// The parts of a COUNT query, as text.
pub struct CountParts {
    pub from: Seq<char>,
    pub conditions: Seq<Seq<char>>,
}

/// The query text of a COUNT with the given parts.
pub open spec fn count_text(q: CountParts) -> Seq<char> {
    "SELECT COUNT() FROM "@ + q.from + where_text(q.conditions)
}

impl View for CountQueryBuilder {
    type V = CountParts;

    closed spec fn view(&self) -> CountParts {
        CountParts { from: self.from@, conditions: views(self.where_clauses@) }
    }
}

impl CountQueryBuilder {
    /// Starts counting the rows of `sobject`.
    pub fn count_from(sobject: &str) -> (r: Self)
        ensures
            r@.from == sobject@,
            r@.conditions == Seq::<Seq<char>>::empty(),
    {
        let r = CountQueryBuilder { from: sobject.to_owned(), where_clauses: Vec::new() };
        assert(views(r.where_clauses@) =~= Seq::<Seq<char>>::empty());
        r
    }

    /// Adds a condition; all conditions must hold.
    pub fn where_clause(self, condition: &str) -> (r: Self)
        ensures
            r@ == (CountParts { conditions: self@.conditions.push(condition@), ..self@ }),
    {
        CountQueryBuilder { from: self.from, where_clauses: pushed(self.where_clauses, condition) }
    }

    /// The query text.
    pub fn build(self) -> (r: String)
        ensures
            r@ == count_text(self@),
    {
        let mut query = "SELECT COUNT() FROM ".to_owned();
        query.append(self.from.as_str());
        append_where(&mut query, &self.where_clauses);
        query
    }
}

/// Builder of a parenthesised subquery over a relationship.
pub struct SubqueryBuilder {
    fields: Vec<String>,
    relationship: String,
    where_clauses: Vec<String>,
    order_by: Option<String>,
    limit: Option<u32>,
}

/// The parts of a subquery, as text.
pub struct SubqueryParts {
    pub fields: Seq<Seq<char>>,
    pub relationship: Seq<char>,
    pub conditions: Seq<Seq<char>>,
    pub order_by: Option<Seq<char>>,
    pub limit: Option<u32>,
}

/// The text of a subquery with the given parts, parentheses included.
pub open spec fn subquery_text(q: SubqueryParts) -> Seq<char> {
    "(SELECT "@ + join(q.fields, ", "@) + " FROM "@ + q.relationship + where_text(q.conditions)
        + order_text(q.order_by) + limit_text(q.limit) + ")"@
}

impl View for SubqueryBuilder {
    type V = SubqueryParts;

    closed spec fn view(&self) -> SubqueryParts {
        SubqueryParts {
            fields: views(self.fields@),
            relationship: self.relationship@,
            conditions: views(self.where_clauses@),
            order_by: opt_view(self.order_by),
            limit: self.limit,
        }
    }
}

impl SubqueryBuilder {
    /// Starts a subquery that selects `fields` over `relationship`.
    pub fn new(relationship: &str, fields: &[&str]) -> (r: Self)
        ensures
            r@.fields == fields@.map_values(|s: &str| s@),
            r@.relationship == relationship@,
            r@.conditions == Seq::<Seq<char>>::empty(),
            r@.order_by is None,
            r@.limit is None,
    {
        let r = SubqueryBuilder {
            fields: strings_of(fields),
            relationship: relationship.to_owned(),
            where_clauses: Vec::new(),
            order_by: None,
            limit: None,
        };
        assert(views(r.where_clauses@) =~= Seq::<Seq<char>>::empty());
        r
    }

    /// Adds a condition; all conditions must hold.
    pub fn where_clause(self, condition: &str) -> (r: Self)
        ensures
            r@ == (SubqueryParts { conditions: self@.conditions.push(condition@), ..self@ }),
    {
        SubqueryBuilder { where_clauses: pushed(self.where_clauses, condition), ..self }
    }

    /// Orders by `field`, replacing an earlier ordering.
    pub fn order_by(self, field: &str) -> (r: Self)
        ensures
            r@ == (SubqueryParts { order_by: Some(field@), ..self@ }),
    {
        SubqueryBuilder { order_by: Some(field.to_owned()), ..self }
    }

    /// Returns at most `limit` rows.
    pub fn limit(self, limit: u32) -> (r: Self)
        ensures
            r@ == (SubqueryParts { limit: Some(limit), ..self@ }),
    {
        SubqueryBuilder { limit: Some(limit), ..self }
    }

    /// The subquery text, in parentheses.
    pub fn build(self) -> (r: String)
        ensures
            r@ == subquery_text(self@),
    {
        let mut query = "(SELECT ".to_owned();
        let fields = join_with(&self.fields, ", ");
        query.append(fields.as_str());
        query.append(" FROM ");
        query.append(self.relationship.as_str());
        append_where(&mut query, &self.where_clauses);
        append_order(&mut query, &self.order_by);
        append_limit(&mut query, self.limit);
        query.append(")");
        query
    }
}

} // verus!
