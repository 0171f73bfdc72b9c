//! The routes of the service. Each route is two functions: the first turns
//! the decoded request into the statement to run, the second turns what the
//! store answered into the reply. Between the two the caller runs the
//! statement; nothing here touches the store.

use crate::models::{series_views, CreateSeries, Series, UpdateSeries};
use crate::query::{list_query, list_statement, Filter, SeriesQueryParams};
use crate::response::{
    change_reply, text_reply, Body, BodyView, Done, Response, ResponseView, StoreError,
    BAD_REQUEST, CREATED, INTERNAL_SERVER_ERROR, NOT_FOUND, OK,
};
use crate::statement::{args_view, SqlArg, SqlValue, Statement, StatementView};
use vstd::prelude::*;
use vstd::string::StringExecFns;

verus! {

/// A statement whose only argument is the id of a record.
pub open spec fn with_id(sql: Seq<char>, id: i64) -> StatementView {
    StatementView { sql, args: seq![SqlArg::Int64(id)] }
}

/// The five attributes of a record as arguments, in the order of the columns.
pub open spec fn attributes(data: CreateSeries) -> Seq<SqlArg> {
    seq![
        SqlArg::Text(data.title@),
        SqlArg::Text(data.status@),
        SqlArg::Int(data.lastEpisodeWatched),
        SqlArg::Int(data.totalEpisodes),
        SqlArg::Int(data.ranking),
    ]
}

fn statement_with_id(sql: &str, id: i64) -> (stmt: Statement)
    ensures
        stmt@ == with_id(sql@, id),
{
    let mut args: Vec<SqlValue> = Vec::new();
    args.push(SqlValue::Int64(id));
    assert(args_view(args@) == seq![SqlArg::Int64(id)]);
    Statement { sql: String::from_str(sql), args }
}

fn attribute_values(data: CreateSeries) -> (args: Vec<SqlValue>)
    ensures
        args_view(args@) == attributes(data),
{
    let mut args: Vec<SqlValue> = Vec::new();
    args.push(SqlValue::Text(data.title));
    args.push(SqlValue::Text(data.status));
    args.push(SqlValue::Int(data.lastEpisodeWatched));
    args.push(SqlValue::Int(data.totalEpisodes));
    args.push(SqlValue::Int(data.ranking));
    assert(args_view(args@) == attributes(data));
    args
}

/// `GET /api/series`: lists the records that match the filter. A request
/// without a query string asks for all of them.
pub fn get_all_series(query: Option<SeriesQueryParams>) -> (stmt: Statement)
    ensures
        stmt@ == list_statement(
            match query {
                Some(params) => params@,
                None => (Filter { search: None, status: None, sort: None }),
            },
        ),
{
    let params = match query {
        Some(params) => params,
        None => SeriesQueryParams::default(),
    };
    list_query(params)
}

/// The reply to a listing: 200 with the records in the order in which the
/// store returned them, or 500 when the store failed.
pub fn get_all_series_response(result: Result<Vec<Series>, StoreError>) -> (reply: Response)
    ensures
        reply@ == match result {
            Ok(list) => (ResponseView { status: OK, body: BodyView::Records(series_views(list@)) }),
            Err(_) => text_reply(INTERNAL_SERVER_ERROR, "Error al obtener series"@),
        },
{
    match result {
        Ok(list) => Response { status: OK, body: Body::Records(list) },
        Err(_) => Response::text(INTERNAL_SERVER_ERROR, "Error al obtener series"),
    }
}

/// `GET /api/series/{id}`: fetches the one record with this id.
pub fn get_series_by_id(id: i64) -> (stmt: Statement)
    ensures
        stmt@ == with_id("SELECT * FROM series WHERE id = ?"@, id),
{
    statement_with_id("SELECT * FROM series WHERE id = ?", id)
}

/// The reply to a fetch by id: 200 with the record, 404 when no row has the
/// id, 500 on any other failure.
pub fn get_series_by_id_response(result: Result<Series, StoreError>) -> (reply: Response)
    ensures
        reply@ == match result {
            Ok(series) => (ResponseView { status: OK, body: BodyView::Record(series@) }),
            Err(StoreError::RowNotFound) => text_reply(NOT_FOUND, "Serie no encontrada"@),
            Err(StoreError::Other) => text_reply(
                INTERNAL_SERVER_ERROR,
                "Error al obtener la serie"@,
            ),
        },
{
    match result {
        Ok(series) => Response { status: OK, body: Body::Record(series) },
        Err(StoreError::RowNotFound) => Response::text(NOT_FOUND, "Serie no encontrada"),
        Err(StoreError::Other) => Response::text(
            INTERNAL_SERVER_ERROR,
            "Error al obtener la serie",
        ),
    }
}

/// `POST /api/series`: inserts a record with the five attributes of the body.
/// The store assigns the id.
pub fn create_series(new_series: CreateSeries) -> (stmt: Statement)
    ensures
        stmt@ == (StatementView {
            sql: "INSERT INTO series (title, status, lastEpisodeWatched, totalEpisodes, ranking) VALUES (?1, ?2, ?3, ?4, ?5)"@,
            args: attributes(new_series),
        }),
{
    let args = attribute_values(new_series);
    Statement {
        sql: String::from_str(
            "INSERT INTO series (title, status, lastEpisodeWatched, totalEpisodes, ranking) VALUES (?1, ?2, ?3, ?4, ?5)",
        ),
        args,
    }
}

/// The reply to a creation: 201 with the id that the store assigned, or 500.
pub fn create_series_response(result: Result<Done, StoreError>) -> (reply: Response)
    ensures
        reply@ == match result {
            Ok(done) => (ResponseView {
                status: CREATED,
                body: BodyView::Id(done.last_insert_rowid),
            }),
            Err(_) => text_reply(INTERNAL_SERVER_ERROR, "Error al crear la serie"@),
        },
{
    match result {
        Ok(done) => Response { status: CREATED, body: Body::Id(done.last_insert_rowid) },
        Err(_) => Response::text(INTERNAL_SERVER_ERROR, "Error al crear la serie"),
    }
}

/// `PUT /api/series/{id}`: replaces all five attributes of the record with
/// this id.
pub fn update_series(id: i64, updated_data: CreateSeries) -> (stmt: Statement)
    ensures
        stmt@ == (StatementView {
            sql: "UPDATE series SET title = ?1, status = ?2, lastEpisodeWatched = ?3, totalEpisodes = ?4, ranking = ?5 WHERE id = ?6"@,
            args: attributes(updated_data).push(SqlArg::Int64(id)),
        }),
{
    let mut args = attribute_values(updated_data);
    args.push(SqlValue::Int64(id));
    assert(args_view(args@) == attributes(updated_data).push(SqlArg::Int64(id)));
    Statement {
        sql: String::from_str(
            "UPDATE series SET title = ?1, status = ?2, lastEpisodeWatched = ?3, totalEpisodes = ?4, ranking = ?5 WHERE id = ?6",
        ),
        args,
    }
}

/// The reply to a replacement. A statement that ran is acknowledged even
/// when it matched no row.
pub fn update_series_response(result: Result<Done, StoreError>) -> (reply: Response)
    ensures
        reply@ == change_reply(
            result is Ok,
            "Serie actualizada correctamente"@,
            "Error al actualizar la serie"@,
        ),
{
    Response::change(&result, "Serie actualizada correctamente", "Error al actualizar la serie")
}

/// `DELETE /api/series/{id}`: deletes the record with this id.
pub fn delete_series(id: i64) -> (stmt: Statement)
    ensures
        stmt@ == with_id("DELETE FROM series WHERE id = ?"@, id),
{
    statement_with_id("DELETE FROM series WHERE id = ?", id)
}

/// The reply to a deletion: 200 with a confirmation when the statement ran,
/// even when it matched no row; 500 when it failed.
pub fn delete_series_response(result: Result<Done, StoreError>) -> (reply: Response)
    ensures
        reply@ == if result is Ok {
            text_reply(OK, "Serie eliminada correctamente"@)
        } else {
            text_reply(INTERNAL_SERVER_ERROR, "Error al eliminar la serie"@)
        },
{
    match result {
        Ok(_) => Response::text(OK, "Serie eliminada correctamente"),
        Err(_) => Response::text(INTERNAL_SERVER_ERROR, "Error al eliminar la serie"),
    }
}

/// `PATCH /api/series/{id}/status`: sets the status of the record with this
/// id. Of the body only `status` is read. A body without it is refused with
/// 400, and no statement is produced.
pub fn patch_series_status(id: i64, data: UpdateSeries) -> (step: Result<Statement, Response>)
    ensures
        match data.status {
            Some(status) => step matches Ok(stmt) && stmt@ == (StatementView {
                sql: "UPDATE series SET status = ?1 WHERE id = ?2"@,
                args: seq![SqlArg::Text(status@), SqlArg::Int64(id)],
            }),
            None => step matches Err(reply) && reply@ == text_reply(
                BAD_REQUEST,
                "Falta el campo 'status'"@,
            ),
        },
{
    match data.status {
        Some(status) => {
            let mut args: Vec<SqlValue> = Vec::new();
            args.push(SqlValue::Text(status));
            args.push(SqlValue::Int64(id));
            assert(args_view(args@) == seq![SqlArg::Text(status@), SqlArg::Int64(id)]);
            Ok(
                Statement {
                    sql: String::from_str("UPDATE series SET status = ?1 WHERE id = ?2"),
                    args,
                },
            )
        },
        None => Err(Response::text(BAD_REQUEST, "Falta el campo 'status'")),
    }
}

/// The reply to a change of status.
pub fn patch_series_status_response(result: Result<Done, StoreError>) -> (reply: Response)
    ensures
        reply@ == change_reply(result is Ok, "Estado actualizado"@, "Error al actualizar estado"@),
{
    Response::change(&result, "Estado actualizado", "Error al actualizar estado")
}

/// `PATCH /api/series/{id}/episode`: adds one to the last episode watched, in
/// a single statement and without regard to the total.
pub fn patch_series_episode(id: i64) -> (stmt: Statement)
    ensures
        stmt@ == with_id(
            "UPDATE series SET lastEpisodeWatched = lastEpisodeWatched + 1 WHERE id = ?1"@,
            id,
        ),
{
    statement_with_id(
        "UPDATE series SET lastEpisodeWatched = lastEpisodeWatched + 1 WHERE id = ?1",
        id,
    )
}

/// The reply to an episode increment.
pub fn patch_series_episode_response(result: Result<Done, StoreError>) -> (reply: Response)
    ensures
        reply@ == change_reply(
            result is Ok,
            "Episodio incrementado"@,
            "Error al incrementar episodio"@,
        ),
{
    Response::change(&result, "Episodio incrementado", "Error al incrementar episodio")
}

/// `PATCH /api/series/{id}/upvote`: adds one to the ranking, in a single
/// statement.
pub fn patch_series_upvote(id: i64) -> (stmt: Statement)
    ensures
        stmt@ == with_id("UPDATE series SET ranking = ranking + 1 WHERE id = ?1"@, id),
{
    statement_with_id("UPDATE series SET ranking = ranking + 1 WHERE id = ?1", id)
}

/// The reply to an upvote.
pub fn patch_series_upvote_response(result: Result<Done, StoreError>) -> (reply: Response)
    ensures
        reply@ == change_reply(
            result is Ok,
            "Ranking incrementado"@,
            "Error al incrementar ranking"@,
        ),
{
    Response::change(&result, "Ranking incrementado", "Error al incrementar ranking")
}

/// `PATCH /api/series/{id}/downvote`: takes one from the ranking, in a single
/// statement and with no lower bound.
pub fn patch_series_downvote(id: i64) -> (stmt: Statement)
    ensures
        stmt@ == with_id("UPDATE series SET ranking = ranking - 1 WHERE id = ?1"@, id),
{
    statement_with_id("UPDATE series SET ranking = ranking - 1 WHERE id = ?1", id)
}

/// The reply to a downvote.
pub fn patch_series_downvote_response(result: Result<Done, StoreError>) -> (reply: Response)
    ensures
        reply@ == change_reply(
            result is Ok,
            "Ranking decremenado"@,
            "Error al decrementar ranking"@,
        ),
{
    Response::change(&result, "Ranking decremenado", "Error al decrementar ranking")
}

} // verus!
