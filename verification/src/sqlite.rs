//! Handing a statement's values to sqlx as a SQLite argument list.

use crate::statement::{args_view, SqlArg, SqlValue, Statement};
use sqlx::sqlite::SqliteArguments;
use sqlx::Arguments;
use vstd::prelude::*;

verus! {

#[verifier::external_type_specification]
#[verifier::external_body]
pub struct ExSqliteArguments<'q>(sqlx::sqlite::SqliteArguments<'q>);

/// The values that an argument list holds, in the order in which they were added.
pub uninterp spec fn bound(args: SqliteArguments<'static>) -> Seq<SqlArg>;

/// `SqliteArguments::default()`: a list that holds no value yet.
#[verifier::external_body]
fn no_arguments() -> (args: SqliteArguments<'static>)
    ensures
        bound(args) == Seq::<SqlArg>::empty(),
{
    SqliteArguments::default()
}

/// `Arguments::add` with a `String`: the text goes to the end of the list as a
/// text value and what was there stays. Encoding a `String` for SQLite cannot
/// fail, so the `Ok(())` that `add` returns is dropped.
#[verifier::external_body]
fn add_text(args: &mut SqliteArguments<'static>, value: String)
    ensures
        bound(*final(args)) == bound(*old(args)).push(SqlArg::Text(value@)),
{
    let _ = args.add(value);
}

/// `Arguments::add` with an `i32`: the number goes to the end of the list as a
/// 32-bit integer value and what was there stays. Encoding it cannot fail.
#[verifier::external_body]
fn add_int(args: &mut SqliteArguments<'static>, value: i32)
    ensures
        bound(*final(args)) == bound(*old(args)).push(SqlArg::Int(value)),
{
    let _ = args.add(value);
}

/// `Arguments::add` with an `i64`: the number goes to the end of the list as a
/// 64-bit integer value and what was there stays. Encoding it cannot fail.
#[verifier::external_body]
fn add_int64(args: &mut SqliteArguments<'static>, value: i64)
    ensures
        bound(*final(args)) == bound(*old(args)).push(SqlArg::Int64(value)),
{
    let _ = args.add(value);
}

impl Statement {
    /// The statement's values as an argument list for sqlx, in the same order.
    pub fn arguments(&self) -> (out: SqliteArguments<'static>)
        ensures
            bound(out) == self@.args,
    {
        let mut out = no_arguments();
        let mut i: usize = 0;
        while i < self.args.len()
            invariant
                i <= self.args.len(),
                bound(out) == args_view(self.args@).take(i as int),
            decreases self.args.len() - i,
        {
            match &self.args[i] {
                SqlValue::Text(s) => add_text(&mut out, s.clone()),
                SqlValue::Int(n) => add_int(&mut out, *n),
                SqlValue::Int64(n) => add_int64(&mut out, *n),
            }
            assert(args_view(self.args@).take(i + 1) == args_view(self.args@).take(
                i as int,
            ).push(self.args@[i as int]@));
            i += 1;
        }
        assert(args_view(self.args@).take(self.args.len() as int) == args_view(self.args@));
        out
    }
}

} // verus!
