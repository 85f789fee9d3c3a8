//! Insertions into the database: the statement, its arguments in the order
//! of its placeholders, and the outcome of running it.

use vstd::prelude::*;
use crate::json::{JsonValue, string_opt_view};

verus! {

/// An argument bound to a placeholder of an insertion.
#[derive(Debug, PartialEq)]
pub enum SqlArg {
    Text(String),
    OptionalText(Option<String>),
    Integer(i32),
    Json(JsonValue),
}

/// The abstract value of an argument.
pub enum SqlArgView {
    Text(Seq<char>),
    OptionalText(Option<Seq<char>>),
    Integer(i32),
    Json(JsonValue),
}

impl View for SqlArg {
    type V = SqlArgView;

    open spec fn view(&self) -> SqlArgView {
        match self {
            SqlArg::Text(s) => SqlArgView::Text(s@),
            SqlArg::OptionalText(o) => SqlArgView::OptionalText(string_opt_view(*o)),
            SqlArg::Integer(n) => SqlArgView::Integer(*n),
            SqlArg::Json(v) => SqlArgView::Json(*v),
        }
    }
}

/// The abstract values of a list of arguments.
pub open spec fn args_view(args: Seq<SqlArg>) -> Seq<SqlArgView> {
    args.map_values(|a: SqlArg| a@)
}

/// An insertion: the statement and the arguments of its placeholders
/// `$1`, `$2`, ... in order.
#[derive(Debug, PartialEq)]
pub struct InsertPlan {
    pub sql: &'static str,
    pub args: Vec<SqlArg>,
}

/// The outcome of an insertion: stored, with the `id` of the row where it
/// could be read, or failed.
#[derive(Debug, Clone, Copy, PartialEq, Eq)]
pub enum StoreOutcome {
    Stored(Option<i32>),
    Failed,
}

/// The id reported for a stored row: the one read back, or `0` when it
/// could not be read.
pub open spec fn reported_id(id: Option<i32>) -> i32 {
    match id {
        Some(i) => i,
        None => 0,
    }
}

/// Returns the id reported for a stored row.
pub fn stored_id(id: Option<i32>) -> (r: i32)
    ensures
        r == reported_id(id),
{
    match id {
        Some(i) => i,
        None => 0,
    }
}

} // verus!
