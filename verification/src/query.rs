//! The listing query: from optional search, status and sort values to one
//! parameterised `SELECT`.

use crate::statement::{args_view, SqlArg, SqlValue, Statement, StatementView};
use crate::text::{
    blank, eq_ignore_case, eq_ignore_case_congruent, equals_ignoring_case, is_blank, join, joined,
    views,
};
use vstd::prelude::*;
use vstd::string::StringExecFns;

verus! {

/// The filter of a listing, as it arrives in the query string.
#[derive(Debug, Clone, PartialEq, Eq)]
pub struct SeriesQueryParams {
    /// Matches the records whose title contains this text.
    pub search: Option<String>,
    /// Matches the records whose status is exactly this text.
    pub status: Option<String>,
    /// Orders by ranking: `asc` or `desc`, in any case.
    pub sort: Option<String>,
}

/// What a filter holds.
pub ghost struct Filter {
    pub search: Option<Seq<char>>,
    pub status: Option<Seq<char>>,
    pub sort: Option<Seq<char>>,
}

impl View for SeriesQueryParams {
    type V = Filter;

    open spec fn view(&self) -> Filter {
        Filter {
            search: match self.search {
                Some(s) => Some(s@),
                None => None,
            },
            status: match self.status {
                Some(s) => Some(s@),
                None => None,
            },
            sort: match self.sort {
                Some(s) => Some(s@),
                None => None,
            },
        }
    }
}

impl Default for SeriesQueryParams {
    /// The filter that asks for every record, in the store's order.
    fn default() -> (params: Self)
        ensures
            params@ == (Filter { search: None, status: None, sort: None }),
    {
        SeriesQueryParams { search: None, status: None, sort: None }
    }
}

/// A filter value counts when it is present and not blank, that is, when
/// trimming it would leave something.
pub open spec fn given(value: Option<Seq<char>>) -> bool {
    value matches Some(s) && !is_blank(s)
}

/// The pattern that matches the titles containing `search`. Wildcards inside
/// `search` are kept as they are.
pub open spec fn like_pattern(search: Seq<char>) -> Seq<char> {
    "%"@ + search + "%"@
}

/// The conditions of a filter: the one on the title before the one on the status.
pub open spec fn conditions(f: Filter) -> Seq<Seq<char>> {
    (if given(f.search) {
        seq!["title LIKE ?"@]
    } else {
        seq![]
    }) + (if given(f.status) {
        seq!["status = ?"@]
    } else {
        seq![]
    })
}

/// The values bound to the placeholders of `conditions(f)`, in the same order.
pub open spec fn bindings(f: Filter) -> Seq<SqlArg> {
    (if given(f.search) {
        seq![SqlArg::Text(like_pattern(f.search->0))]
    } else {
        seq![]
    }) + (if given(f.status) {
        seq![SqlArg::Text(f.status->0)]
    } else {
        seq![]
    })
}

/// `WHERE` and the conditions joined by `AND`; nothing when there is no condition.
pub open spec fn where_clause(f: Filter) -> Seq<char> {
    if conditions(f).len() == 0 {
        Seq::empty()
    } else {
        " WHERE "@ + joined(conditions(f), " AND "@)
    }
}

/// The ordering clause of a sort value; nothing for a value that names no direction.
pub open spec fn order_clause(sort: Option<Seq<char>>) -> Seq<char> {
    match sort {
        Some(s) => if eq_ignore_case(s, "asc"@) {
            " ORDER BY ranking ASC"@
        } else if eq_ignore_case(s, "desc"@) {
            " ORDER BY ranking DESC"@
        } else {
            Seq::empty()
        },
        None => Seq::empty(),
    }
}

/// The statement that lists the records matching a filter.
pub open spec fn list_statement(f: Filter) -> StatementView {
    StatementView {
        sql: "SELECT * FROM series"@ + where_clause(f) + order_clause(f.sort),
        args: bindings(f),
    }
}

/// Builds the listing statement of a filter. Every filter yields a statement:
/// a sort value that names no direction leaves the result unordered.
pub fn list_query(params: SeriesQueryParams) -> (stmt: Statement)
    ensures
        stmt@ == list_statement(params@),
{
    let ghost f = params@;
    let SeriesQueryParams { search, status, sort } = params;
    let mut sql = String::from_str("SELECT * FROM series");
    let mut conds: Vec<&str> = Vec::new();
    let mut args: Vec<SqlValue> = Vec::new();

    if let Some(search) = search {
        if !blank(search.as_str()) {
            conds.push("title LIKE ?");
            let mut pattern = String::from_str("%");
            pattern.append(search.as_str());
            pattern.append("%");
            args.push(SqlValue::Text(pattern));
        }
    }
    if let Some(status) = status {
        if !blank(status.as_str()) {
            conds.push("status = ?");
            args.push(SqlValue::Text(status));
        }
    }
    assert(views(conds@) == conditions(f));
    assert(args_view(args@) == bindings(f));
    if conds.len() > 0 {
        sql.append(" WHERE ");
        let all = join(&conds, " AND ");
        sql.append(all.as_str());
    }
    assert(sql@ =~= "SELECT * FROM series"@ + where_clause(f));
    if let Some(sort) = sort {
        if equals_ignoring_case(sort.as_str(), "asc") {
            sql.append(" ORDER BY ranking ASC");
        } else if equals_ignoring_case(sort.as_str(), "desc") {
            sql.append(" ORDER BY ranking DESC");
        }
    }
    assert(sql@ =~= "SELECT * FROM series"@ + where_clause(f) + order_clause(f.sort));
    Statement { sql, args }
}

/// The text of a listing statement is fixed by which conditions are given and
/// by the ordering clause: what `search` and `status` hold goes to the
/// arguments and never into the text.
pub proof fn text_ignores_values(f: Filter, g: Filter)
    requires
        given(f.search) == given(g.search),
        given(f.status) == given(g.status),
        order_clause(f.sort) == order_clause(g.sort),
    ensures
        list_statement(f).sql == list_statement(g).sql,
{
    assert(conditions(f) =~= conditions(g));
}

/// Every condition has exactly one argument, and the argument of the title
/// comes before that of the status.
pub proof fn one_argument_per_condition(f: Filter)
    ensures
        bindings(f).len() == conditions(f).len(),
        given(f.search) ==> bindings(f)[0] == SqlArg::Text(like_pattern(f.search->0)),
        given(f.status) ==> bindings(f).last() == SqlArg::Text(f.status->0),
{
}

/// The four forms of the `WHERE` clause.
pub proof fn where_clause_forms(f: Filter)
    ensures
        where_clause(f) == if given(f.search) && given(f.status) {
            " WHERE title LIKE ? AND status = ?"@
        } else if given(f.search) {
            " WHERE title LIKE ?"@
        } else if given(f.status) {
            " WHERE status = ?"@
        } else {
            Seq::empty()
        },
{
    reveal_strlit(" WHERE ");
    reveal_strlit(" AND ");
    reveal_strlit("title LIKE ?");
    reveal_strlit("status = ?");
    reveal_strlit(" WHERE title LIKE ? AND status = ?");
    reveal_strlit(" WHERE title LIKE ?");
    reveal_strlit(" WHERE status = ?");
    let c = conditions(f);
    if given(f.search) && given(f.status) {
        assert(c =~= seq!["title LIKE ?"@, "status = ?"@]);
        assert(c.drop_last() =~= seq!["title LIKE ?"@]);
        assert(joined(c.drop_last(), " AND "@) == "title LIKE ?"@);
        assert(where_clause(f) =~= " WHERE title LIKE ? AND status = ?"@);
    } else if given(f.search) {
        assert(c =~= seq!["title LIKE ?"@]);
        assert(where_clause(f) =~= " WHERE title LIKE ?"@);
    } else if given(f.status) {
        assert(c =~= seq!["status = ?"@]);
        assert(where_clause(f) =~= " WHERE status = ?"@);
    } else {
        assert(c =~= Seq::<Seq<char>>::empty());
    }
}

/// A filter without a condition that counts, be its values absent or blank,
/// selects from the whole table and binds nothing.
pub proof fn no_condition_no_where(f: Filter)
    requires
        !given(f.search),
        !given(f.status),
    ensures
        list_statement(f).sql == "SELECT * FROM series"@ + order_clause(f.sort),
        list_statement(f).args == Seq::<SqlArg>::empty(),
{
    assert(conditions(f) =~= Seq::<Seq<char>>::empty());
    assert(list_statement(f).sql =~= "SELECT * FROM series"@ + order_clause(f.sort));
    assert(bindings(f) =~= Seq::<SqlArg>::empty());
}

/// A sort value that names neither direction is no error: the statement is
/// the one of the same filter without a sort value.
pub proof fn unknown_sort_is_no_sort(f: Filter, sort: Seq<char>)
    requires
        !eq_ignore_case(sort, "asc"@),
        !eq_ignore_case(sort, "desc"@),
    ensures
        list_statement(Filter { sort: Some(sort), ..f }) == list_statement(
            Filter { sort: None, ..f },
        ),
{
    let with = Filter { sort: Some(sort), ..f };
    let without = Filter { sort: None, ..f };
    assert(conditions(with) =~= conditions(without));
    assert(bindings(with) =~= bindings(without));
}

/// The ordering clause reads its value without regard to the case of ASCII
/// letters.
pub proof fn sort_ignores_case(a: Seq<char>, b: Seq<char>)
    requires
        eq_ignore_case(a, b),
    ensures
        order_clause(Some(a)) == order_clause(Some(b)),
{
    eq_ignore_case_congruent(a, b, "asc"@);
    eq_ignore_case_congruent(a, b, "desc"@);
}

} // verus!
