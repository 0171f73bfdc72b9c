use series_tracker::models::{CreateSeries, Series, UpdateSeries};
use series_tracker::query::SeriesQueryParams;
use series_tracker::response::{Body, Done, Response, StoreError};
use series_tracker::routes::{
    create_series, create_series_response, delete_series, delete_series_response, get_all_series,
    get_all_series_response, get_series_by_id, get_series_by_id_response, patch_series_downvote,
    patch_series_downvote_response, patch_series_episode, patch_series_episode_response,
    patch_series_status, patch_series_status_response, patch_series_upvote,
    patch_series_upvote_response, update_series, update_series_response,
};
use series_tracker::statement::{SqlValue, Statement};

fn show_a() -> CreateSeries {
    CreateSeries {
        title: "Show A".to_string(),
        status: "Watching".to_string(),
        lastEpisodeWatched: 0,
        totalEpisodes: 12,
        ranking: 0,
    }
}

fn record(id: i64, title: &str, ranking: i32) -> Series {
    Series {
        id,
        title: title.to_string(),
        status: "Watching".to_string(),
        lastEpisodeWatched: 3,
        totalEpisodes: 10,
        ranking,
    }
}

fn done(rows_affected: u64) -> Result<Done, StoreError> {
    Ok(Done { rows_affected, last_insert_rowid: 0 })
}

fn text(status: u16, message: &str) -> Response {
    Response { status, body: Body::Text(message.to_string()) }
}

fn ack(status: u16, success: bool, message: &str) -> Response {
    Response { status, body: Body::Ack { success, message: message.to_string() } }
}

fn with_id(sql: &str, id: i64) -> Statement {
    Statement { sql: sql.to_string(), args: vec![SqlValue::Int64(id)] }
}

#[test]
fn listing_without_a_query_selects_everything() {
    assert_eq!(
        get_all_series(None),
        Statement { sql: "SELECT * FROM series".to_string(), args: vec![] }
    );
}

#[test]
fn listing_with_a_query_uses_the_filter() {
    let query = SeriesQueryParams {
        search: Some("foo".to_string()),
        status: Some("Watching".to_string()),
        sort: Some("desc".to_string()),
    };
    let stmt = get_all_series(Some(query));
    assert_eq!(
        stmt.sql,
        "SELECT * FROM series WHERE title LIKE ? AND status = ? ORDER BY ranking DESC"
    );
    assert_eq!(
        stmt.args,
        vec![SqlValue::Text("%foo%".to_string()), SqlValue::Text("Watching".to_string())]
    );
}

#[test]
fn listing_replies_with_the_records_in_order() {
    let list = vec![record(2, "B", 5), record(1, "A", 9)];
    let reply = get_all_series_response(Ok(list.clone()));
    assert_eq!(reply, Response { status: 200, body: Body::Records(list) });
    let reply = get_all_series_response(Ok(vec![]));
    assert_eq!(reply, Response { status: 200, body: Body::Records(vec![]) });
}

#[test]
fn listing_failure_is_an_internal_error() {
    for e in [StoreError::Other, StoreError::RowNotFound] {
        assert_eq!(get_all_series_response(Err(e)), text(500, "Error al obtener series"));
    }
}

#[test]
fn fetch_by_id_binds_the_id() {
    assert_eq!(get_series_by_id(7), with_id("SELECT * FROM series WHERE id = ?", 7));
    assert_eq!(get_series_by_id(-1), with_id("SELECT * FROM series WHERE id = ?", -1));
    assert_eq!(
        get_series_by_id(i64::MAX),
        with_id("SELECT * FROM series WHERE id = ?", i64::MAX)
    );
}

#[test]
fn fetch_by_id_replies() {
    let found = record(7, "Dark", 4);
    assert_eq!(
        get_series_by_id_response(Ok(found.clone())),
        Response { status: 200, body: Body::Record(found) }
    );
    assert_eq!(
        get_series_by_id_response(Err(StoreError::RowNotFound)),
        text(404, "Serie no encontrada")
    );
    assert_eq!(
        get_series_by_id_response(Err(StoreError::Other)),
        text(500, "Error al obtener la serie")
    );
}

#[test]
fn creation_binds_the_five_attributes_in_column_order() {
    let stmt = create_series(show_a());
    assert_eq!(
        stmt.sql,
        "INSERT INTO series (title, status, lastEpisodeWatched, totalEpisodes, ranking) VALUES (?1, ?2, ?3, ?4, ?5)"
    );
    assert_eq!(
        stmt.args,
        vec![
            SqlValue::Text("Show A".to_string()),
            SqlValue::Text("Watching".to_string()),
            SqlValue::Int(0),
            SqlValue::Int(12),
            SqlValue::Int(0),
        ]
    );
}

#[test]
fn creation_replies_with_the_new_id() {
    let reply = create_series_response(Ok(Done { rows_affected: 1, last_insert_rowid: 42 }));
    assert_eq!(reply, Response { status: 201, body: Body::Id(42) });
    for e in [StoreError::Other, StoreError::RowNotFound] {
        assert_eq!(create_series_response(Err(e)), text(500, "Error al crear la serie"));
    }
}

#[test]
fn replacement_binds_the_attributes_and_then_the_id() {
    let data = CreateSeries {
        title: "Show B".to_string(),
        status: "Completed".to_string(),
        lastEpisodeWatched: 24,
        totalEpisodes: 24,
        ranking: -3,
    };
    let stmt = update_series(9, data);
    assert_eq!(
        stmt.sql,
        "UPDATE series SET title = ?1, status = ?2, lastEpisodeWatched = ?3, totalEpisodes = ?4, ranking = ?5 WHERE id = ?6"
    );
    assert_eq!(
        stmt.args,
        vec![
            SqlValue::Text("Show B".to_string()),
            SqlValue::Text("Completed".to_string()),
            SqlValue::Int(24),
            SqlValue::Int(24),
            SqlValue::Int(-3),
            SqlValue::Int64(9),
        ]
    );
}

#[test]
fn replacement_replies() {
    assert_eq!(update_series_response(done(1)), ack(200, true, "Serie actualizada correctamente"));
    assert_eq!(update_series_response(done(0)), ack(200, true, "Serie actualizada correctamente"));
    assert_eq!(
        update_series_response(Err(StoreError::Other)),
        ack(500, false, "Error al actualizar la serie")
    );
}

#[test]
fn deletion_binds_the_id() {
    assert_eq!(delete_series(3), with_id("DELETE FROM series WHERE id = ?", 3));
}

#[test]
fn deletion_replies() {
    assert_eq!(delete_series_response(done(1)), text(200, "Serie eliminada correctamente"));
    assert_eq!(delete_series_response(done(0)), text(200, "Serie eliminada correctamente"));
    assert_eq!(
        delete_series_response(Err(StoreError::Other)),
        text(500, "Error al eliminar la serie")
    );
}

fn patch(status: Option<&str>) -> UpdateSeries {
    UpdateSeries {
        title: None,
        status: status.map(String::from),
        lastEpisodeWatched: None,
        totalEpisodes: None,
        ranking: None,
    }
}

#[test]
fn status_patch_binds_the_status_and_the_id() {
    let stmt = patch_series_status(5, patch(Some("Dropped")));
    assert_eq!(
        stmt,
        Ok(Statement {
            sql: "UPDATE series SET status = ?1 WHERE id = ?2".to_string(),
            args: vec![SqlValue::Text("Dropped".to_string()), SqlValue::Int64(5)],
        })
    );
}

#[test]
fn status_patch_reads_nothing_but_the_status() {
    let data = UpdateSeries {
        title: Some("Other".to_string()),
        status: Some("".to_string()),
        lastEpisodeWatched: Some(1),
        totalEpisodes: Some(2),
        ranking: Some(3),
    };
    assert_eq!(
        patch_series_status(5, data),
        Ok(Statement {
            sql: "UPDATE series SET status = ?1 WHERE id = ?2".to_string(),
            args: vec![SqlValue::Text("".to_string()), SqlValue::Int64(5)],
        })
    );
}

#[test]
fn status_patch_without_status_is_refused() {
    assert_eq!(patch_series_status(5, patch(None)), Err(text(400, "Falta el campo 'status'")));
    let data = UpdateSeries {
        title: Some("Other".to_string()),
        status: None,
        lastEpisodeWatched: Some(1),
        totalEpisodes: Some(2),
        ranking: Some(3),
    };
    assert_eq!(patch_series_status(5, data), Err(text(400, "Falta el campo 'status'")));
}

#[test]
fn status_patch_replies() {
    assert_eq!(patch_series_status_response(done(1)), ack(200, true, "Estado actualizado"));
    assert_eq!(patch_series_status_response(done(0)), ack(200, true, "Estado actualizado"));
    assert_eq!(
        patch_series_status_response(Err(StoreError::Other)),
        ack(500, false, "Error al actualizar estado")
    );
}

#[test]
fn episode_increment_is_one_statement() {
    assert_eq!(
        patch_series_episode(8),
        with_id("UPDATE series SET lastEpisodeWatched = lastEpisodeWatched + 1 WHERE id = ?1", 8)
    );
    assert_eq!(patch_series_episode_response(done(1)), ack(200, true, "Episodio incrementado"));
    assert_eq!(
        patch_series_episode_response(Err(StoreError::Other)),
        ack(500, false, "Error al incrementar episodio")
    );
}

#[test]
fn upvote_is_one_statement() {
    assert_eq!(
        patch_series_upvote(8),
        with_id("UPDATE series SET ranking = ranking + 1 WHERE id = ?1", 8)
    );
    assert_eq!(patch_series_upvote_response(done(1)), ack(200, true, "Ranking incrementado"));
    assert_eq!(
        patch_series_upvote_response(Err(StoreError::Other)),
        ack(500, false, "Error al incrementar ranking")
    );
}

#[test]
fn downvote_is_one_statement() {
    assert_eq!(
        patch_series_downvote(8),
        with_id("UPDATE series SET ranking = ranking - 1 WHERE id = ?1", 8)
    );
    assert_eq!(patch_series_downvote_response(done(1)), ack(200, true, "Ranking decremenado"));
    assert_eq!(
        patch_series_downvote_response(Err(StoreError::Other)),
        ack(500, false, "Error al decrementar ranking")
    );
}

#[test]
fn reply_builders() {
    assert_eq!(Response::text(404, "gone"), text(404, "gone"));
    assert_eq!(Response::ack(200, true, "fine"), ack(200, true, "fine"));
    assert_eq!(Response::change(&done(0), "yes", "no"), ack(200, true, "yes"));
    assert_eq!(Response::change(&Err(StoreError::RowNotFound), "yes", "no"), ack(500, false, "no"));
}
