//! Parameterised statements: SQL text with `?` placeholders and the values
//! bound to them, in order. No value ever becomes part of the text.

use vstd::prelude::*;

verus! {

/// A value bound to a placeholder.
#[derive(Debug, Clone, PartialEq, Eq)]
pub enum SqlValue {
    Text(String),
    Int(i32),
    Int64(i64),
}

/// What a bound value holds.
pub ghost enum SqlArg {
    Text(Seq<char>),
    Int(i32),
    Int64(i64),
}

impl View for SqlValue {
    type V = SqlArg;

    open spec fn view(&self) -> SqlArg {
        match self {
            SqlValue::Text(s) => SqlArg::Text(s@),
            SqlValue::Int(n) => SqlArg::Int(*n),
            SqlValue::Int64(n) => SqlArg::Int64(*n),
        }
    }
}

/// The views of a list of bound values.
pub open spec fn args_view(args: Seq<SqlValue>) -> Seq<SqlArg> {
    Seq::new(args.len(), |i: int| args[i]@)
}

/// A statement ready to be run: its text and its positional arguments.
#[derive(Debug, Clone, PartialEq, Eq)]
pub struct Statement {
    pub sql: String,
    pub args: Vec<SqlValue>,
}

/// What a statement holds.
pub ghost struct StatementView {
    pub sql: Seq<char>,
    pub args: Seq<SqlArg>,
}

impl View for Statement {
    type V = StatementView;

    open spec fn view(&self) -> StatementView {
        StatementView { sql: self.sql@, args: args_view(self.args@) }
    }
}

} // verus!
