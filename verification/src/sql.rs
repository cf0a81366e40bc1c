//! Statements handed to the storage engine: text and positional parameters.

use vstd::prelude::*;

verus! {

/// A positional parameter of a statement.
#[derive(Clone, Debug, PartialEq, Eq)]
pub enum SqlValue {
    Null,
    Integer(i64),
    Text(String),
}

/// What a parameter holds.
pub enum Param {
    Null,
    Integer(int),
    Text(Seq<char>),
}

impl View for SqlValue {
    type V = Param;

    open spec fn view(&self) -> Param {
        match self {
            SqlValue::Null => Param::Null,
            SqlValue::Integer(i) => Param::Integer(*i as int),
            SqlValue::Text(s) => Param::Text(s@),
        }
    }
}

/// One statement: its text and the values bound to `?1`, `?2`, ...
#[derive(Clone, Debug, PartialEq, Eq)]
pub struct Statement {
    pub sql: String,
    pub params: Vec<SqlValue>,
}

/// What a statement holds.
pub struct StatementModel {
    pub sql: Seq<char>,
    pub params: Seq<Param>,
}

impl View for Statement {
    type V = StatementModel;

    open spec fn view(&self) -> StatementModel {
        StatementModel { sql: self.sql@, params: self.params@.map_values(|p: SqlValue| p@) }
    }
}

/// The statement with text `sql` and parameters `params`.
pub open spec fn stmt(sql: Seq<char>, params: Seq<Param>) -> StatementModel {
    StatementModel { sql, params }
}

/// What a sequence of statements holds, in its order.
pub open spec fn plan_model(plan: Seq<Statement>) -> Seq<StatementModel> {
    plan.map_values(|s: Statement| s@)
}

/// A plan with one more statement holds one more model, at its end.
pub proof fn lemma_plan_push(plan: Seq<Statement>, s: Statement)
    ensures
        plan_model(plan.push(s)) == plan_model(plan).push(s@),
{
    assert(plan_model(plan.push(s)) =~= plan_model(plan).push(s@));
}

/// The parameter that stands for a flag: 1 for true, 0 for false.
pub open spec fn flag_param(b: bool) -> Param {
    Param::Integer(if b { 1 } else { 0 })
}

/// The parameter that stands for an optional text.
pub open spec fn text_param(t: Option<Seq<char>>) -> Param {
    match t {
        Some(s) => Param::Text(s),
        None => Param::Null,
    }
}

impl SqlValue {
    /// 1 for true, 0 for false.
    pub fn flag(b: bool) -> (r: SqlValue)
        ensures
            r@ == flag_param(b),
    {
        if b {
            SqlValue::Integer(1)
        } else {
            SqlValue::Integer(0)
        }
    }

    /// The text, or `Null` where there is none.
    pub fn optional_text(t: &Option<String>) -> (r: SqlValue)
        ensures
            r@ == text_param(
                match *t {
                    Some(s) => Some(s@),
                    None => None,
                },
            ),
    {
        match t {
            Some(s) => SqlValue::Text(s.clone()),
            None => SqlValue::Null,
        }
    }
}

impl Statement {
    /// A statement without parameters.
    pub fn plain(sql: String) -> (r: Statement)
        ensures
            r@ == stmt(sql@, Seq::empty()),
    {
        let r = Statement { sql, params: Vec::new() };
        assert(r@.params =~= Seq::empty());
        r
    }

    /// A statement with one parameter.
    pub fn with1(sql: String, first: SqlValue) -> (r: Statement)
        ensures
            r@ == stmt(sql@, seq![first@]),
    {
        let mut params: Vec<SqlValue> = Vec::new();
        params.push(first);
        let r = Statement { sql, params };
        assert(r@.params =~= seq![first@]);
        r
    }

    /// A statement with two parameters.
    pub fn with2(sql: String, first: SqlValue, second: SqlValue) -> (r: Statement)
        ensures
            r@ == stmt(sql@, seq![first@, second@]),
    {
        let mut params: Vec<SqlValue> = Vec::new();
        params.push(first);
        params.push(second);
        let r = Statement { sql, params };
        assert(r@.params =~= seq![first@, second@]);
        r
    }

    /// A statement with three parameters.
    pub fn with3(sql: String, first: SqlValue, second: SqlValue, third: SqlValue) -> (r: Statement)
        ensures
            r@ == stmt(sql@, seq![first@, second@, third@]),
    {
        let mut params: Vec<SqlValue> = Vec::new();
        params.push(first);
        params.push(second);
        params.push(third);
        let r = Statement { sql, params };
        assert(r@.params =~= seq![first@, second@, third@]);
        r
    }

    /// A statement with the parameters of `params`, in their order.
    pub fn with_params(sql: String, params: Vec<SqlValue>) -> (r: Statement)
        ensures
            r@ == stmt(sql@, params@.map_values(|p: SqlValue| p@)),
    {
        Statement { sql, params }
    }
}

} // verus!
