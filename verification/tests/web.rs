use media::axum::extract::{Body, Error, Json, JsonRejection, Path, PathRejection};
use media::exe::serve::web::auth::guard;
use media::exe::serve::web::error::{code, message, passes};
use media::exe::serve::web::route::{affected, rows_statement};
use media::exe::serve::web::route::all::{records, Bind, Params, Row, Sort};
use media::exe::serve::web::route::books::{Params as BookParams, Sort as BookSort};
use media::exe::serve::web::route::query::Order;
use media::exe::serve::web::route::tags;
use media::exe::serve::web::{describe, Operation};
use media::kind::Kind;
use media::uuid::Uuid;

const SELECT_ALL: &str = "SELECT media.id, media.kind, media.created, media.updated, books.isbn, books.hcid, books.title AS book_title, books.cover, books.about, books.color, films.tmdb AS film_tmdb, films.title AS film_title, films.year AS film_year, films.rated AS film_rated, games.tgdb, games.title AS game_title, games.system, games.owned, games.rated AS game_rated, links.url, links.title AS link_title, shows.tmdb AS show_tmdb, shows.title AS show_title, shows.year AS show_year, shows.rated AS show_rated FROM media LEFT JOIN books ON books.id = media.id LEFT JOIN films ON films.id = media.id LEFT JOIN games ON games.id = media.id LEFT JOIN links ON links.id = media.id LEFT JOIN shows ON shows.id = media.id";

#[test]
fn guard_permits_reads_and_matching_tokens() {
    assert!(guard(true, Some("secret"), None));
    assert!(guard(true, None, None));
    assert!(!guard(false, None, None));
    assert!(!guard(false, None, Some("Bearer secret")));
    assert!(guard(false, Some("secret"), Some("Bearer secret")));
    assert!(!guard(false, Some("secret"), Some("Bearer wrong")));
    assert!(!guard(false, Some("secret"), Some("secret")));
    assert!(!guard(false, Some("secret"), None));
    assert!(!guard(false, Some("secret"), Some("bearer secret")));
}

#[test]
fn error_middleware_keeps_success_and_json() {
    assert!(passes(200, ""));
    assert!(passes(304, "text/plain"));
    assert!(passes(404, "application/json; charset=utf-8"));
    assert!(!passes(404, "text/plain"));
    assert!(!passes(500, ""));
    assert!(!passes(400, "application/jso"));
}

#[test]
fn error_middleware_message() {
    assert_eq!(message(404, "  missing thing \n"), "missing thing");
    assert_eq!(message(404, ""), "Not Found");
    assert_eq!(message(405, ""), "Method Not Allowed");
    assert_eq!(message(599, ""), "error");
}

#[test]
fn handler_errors_to_responses() {
    let r = Error::NotFound.into_response();
    assert_eq!(r.status, 404);
    assert_eq!(r.body.error.code, "not_found");
    assert_eq!(r.body.error.message, "Not Found");
    assert!(r.body.error.fields.is_empty());
    let r = Error::Internal("database is locked".to_string()).into_response();
    assert_eq!(r.status, 500);
    assert_eq!(r.body.error.code, "internal");
    assert_eq!(r.body.error.message, "database is locked");
    assert!(r.body.error.fields.is_empty());
}

#[test]
fn rejections() {
    let fields = vec!["title".to_string()];
    let r = Json::<()>::rejection(JsonRejection::JsonDataError, fields.clone());
    assert_eq!((r.status, r.body.error.code.as_str()), (422, "invalid_body"));
    assert_eq!(r.body.error.message, "invalid request body");
    assert_eq!(r.body.error.fields, fields);
    let r = Json::<()>::rejection(JsonRejection::JsonSyntaxError, fields.clone());
    assert_eq!((r.status, r.body.error.code.as_str()), (400, "malformed_json"));
    assert_eq!(r.body.error.message, "malformed JSON");
    assert!(r.body.error.fields.is_empty());
    let r = Json::<()>::rejection(JsonRejection::MissingJsonContentType, fields.clone());
    assert_eq!((r.status, r.body.error.code.as_str()), (415, "unsupported_media_type"));
    assert_eq!(r.body.error.message, "expected Content-Type: application/json");
    let r = Json::<()>::rejection(JsonRejection::Other, fields.clone());
    assert_eq!((r.status, r.body.error.code.as_str()), (500, "internal"));
    assert_eq!(r.body.error.message, "internal error");
    let id = vec!["id".to_string()];
    let r = Path::<()>::rejection(PathRejection::FailedToDeserializePathParams, id.clone());
    assert_eq!((r.status, r.body.error.code.as_str()), (400, "invalid_path"));
    assert_eq!(r.body.error.message, "invalid path parameter");
    assert_eq!(r.body.error.fields, id);
    let r = Path::<()>::rejection(PathRejection::MissingPathParams, id.clone());
    assert_eq!((r.status, r.body.error.message.as_str()), (500, "missing path parameters"));
    assert!(r.body.error.fields.is_empty());
    let r = Path::<()>::rejection(PathRejection::Other, id);
    assert_eq!((r.status, r.body.error.message.as_str()), (500, "internal error"));
    let r = Body::reject(418, "teapot".to_string(), "I'm a teapot".to_string(), vec![]);
    assert_eq!(r.status, 418);
    assert_eq!(r.body.error.code, "teapot");
}

#[test]
fn error_codes_by_status() {
    assert_eq!(code(401), "unauthorized");
    assert_eq!(code(404), "not_found");
    assert_eq!(code(405), "method_not_allowed");
    assert_eq!(code(418), "client_error");
    assert_eq!(code(500), "internal");
    assert_eq!(code(503), "server_error");
}

#[test]
fn list_statement_defaults() {
    let p = Params { tag: None, sort: None, order: None, limit: None, offset: None };
    let s = p.statement();
    assert_eq!(s.sql, format!("{SELECT_ALL} ORDER BY media.created DESC"));
    assert!(s.binds.is_empty());
    assert_eq!(Sort::default(), Sort::Created);
    assert_eq!(Order::default(), Order::Desc);
}

#[test]
fn list_statement_with_filters() {
    let p = Params {
        tag: Some("scifi".to_string()),
        sort: Some(Sort::Updated),
        order: Some(Order::Asc),
        limit: Some(10),
        offset: None,
    };
    let s = p.statement();
    assert_eq!(
        s.sql,
        format!(
            "{SELECT_ALL} WHERE EXISTS (SELECT 1 FROM tags WHERE tags.media = media.id AND tags.label = ?) ORDER BY media.updated ASC LIMIT ? OFFSET ?"
        )
    );
    assert_eq!(s.binds.len(), 3);
    assert!(matches!(&s.binds[0], Bind::Text(t) if t == "scifi"));
    assert!(matches!(&s.binds[1], Bind::Int(10)));
    assert!(matches!(&s.binds[2], Bind::Int(0)));
}

#[test]
fn book_statement() {
    let p = BookParams {
        q: Some("dune".to_string()),
        tag: Some("scifi".to_string()),
        sort: Some(BookSort::Title),
        order: None,
        limit: None,
        offset: Some(5),
    };
    let s = p.statement();
    assert_eq!(
        s.sql,
        "SELECT books.id, isbn, hcid, title, cover, about, color, media.created, media.updated FROM books JOIN media ON media.id = books.id WHERE title LIKE '%' || ? || '%' AND EXISTS (SELECT 1 FROM tags WHERE tags.media = books.id AND tags.label = ?) ORDER BY title DESC"
    );
    assert_eq!(s.binds.len(), 2);
    assert!(matches!(&s.binds[0], Bind::Text(t) if t == "dune"));
    assert!(matches!(&s.binds[1], Bind::Text(t) if t == "scifi"));
}

fn listing_row(n: u128, kind: &str) -> Row {
    Row {
        id: Uuid::from_u128(n),
        kind: kind.to_string(),
        created: 1,
        updated: 2,
        isbn: None,
        hcid: None,
        book_title: Some("Dune".to_string()),
        cover: None,
        about: None,
        color: None,
        film_tmdb: None,
        film_title: None,
        film_year: None,
        film_rated: None,
        tgdb: None,
        game_title: Some("Tetris".to_string()),
        system: None,
        owned: None,
        game_rated: None,
        url: None,
        link_title: None,
        show_tmdb: None,
        show_title: None,
        show_year: None,
        show_rated: None,
    }
}

#[test]
fn listing_rows_to_records() {
    let rec = listing_row(1, "book").into_record(vec!["a".to_string()]).unwrap();
    assert!(matches!(&rec.item, Kind::Book(b) if b.title == "Dune"));
    assert_eq!(rec.tags, vec!["a".to_string()]);
    // A game row needs its owned count.
    assert!(listing_row(2, "game").into_record(vec![]).is_none());
    assert!(listing_row(3, "comic").into_record(vec![]).is_none());
    assert!(listing_row(4, "film").into_record(vec![]).is_none());
    let pairs = vec![(Uuid::from_u128(1), "x".to_string()), (Uuid::from_u128(5), "y".to_string())];
    let recs = records(vec![listing_row(2, "game"), listing_row(1, "book"), listing_row(1, "book")], &pairs);
    assert_eq!(recs.len(), 2);
    assert_eq!(recs[0].tags, vec!["x".to_string()]);
    assert!(recs[1].tags.is_empty());
}

#[test]
fn tag_fetch_of_unknown_tag() {
    assert!(matches!(tags::fetch(vec![], &vec![]), Err(Error::NotFound)));
    let recs = tags::fetch(vec![listing_row(1, "book")], &vec![]).ok().unwrap();
    assert_eq!(recs.len(), 1);
}

#[test]
fn affected_rows() {
    assert!(affected(1).is_ok());
    assert!(matches!(affected(0), Err(Error::NotFound)));
}

#[test]
fn describe_operation() {
    let mut op = Operation { summary: Some("List films.".to_string()), description: None };
    describe(&mut op);
    assert_eq!(op.description.as_deref(), Some("List films."));
    assert_eq!(op.summary, None);
    let mut op = Operation { summary: Some("s".to_string()), description: Some("d".to_string()) };
    describe(&mut op);
    assert_eq!(op.description.as_deref(), Some("d"));
    assert_eq!(op.summary.as_deref(), Some("s"));
}

#[test]
fn media_rows_statement() {
    let p = Params { tag: None, sort: None, order: None, limit: None, offset: None };
    let s = rows_statement(&p);
    assert_eq!(s.sql, "SELECT id, kind, created, updated FROM media ORDER BY media.created DESC");
    assert!(s.binds.is_empty());
    let p = Params {
        tag: Some("fav".to_string()),
        sort: Some(Sort::Updated),
        order: Some(Order::Asc),
        limit: Some(20),
        offset: Some(40),
    };
    let s = rows_statement(&p);
    assert_eq!(
        s.sql,
        "SELECT id, kind, created, updated FROM media WHERE EXISTS (SELECT 1 FROM tags WHERE tags.media = media.id AND tags.label = ?) ORDER BY media.updated ASC LIMIT ? OFFSET ?"
    );
    assert_eq!(s.binds.len(), 3);
    assert!(matches!(&s.binds[0], Bind::Text(t) if t == "fav"));
    assert!(matches!(&s.binds[1], Bind::Int(20)));
    assert!(matches!(&s.binds[2], Bind::Int(40)));
}

#[test]
fn trim_removes_unicode_whitespace() {
    assert_eq!(media::text::trim("\u{3000} a b \u{a0}\n"), "a b");
    assert_eq!(media::text::trim("  \t "), "");
    assert_eq!(media::text::trim(""), "");
    assert_eq!(media::text::trim("x"), "x");
    for s in ["\u{2028}q\u{85}", " mid dle ", "\r\nz"] {
        assert_eq!(media::text::trim(s), s.trim());
    }
}
