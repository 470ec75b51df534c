use media::book::{Body as BookBody, Book, Patch as BookPatch};
use media::film::{Film, Patch as FilmPatch};
use media::game::owned::{Body as OwnedBody, Row as OwnedRow};
use media::game::systems::{Patch as SystemsPatch, Row as SystemsRow};
use media::game::Game;
use media::item::{Item, Kind, Meta, Record};
use media::link::{Link, Patch as LinkPatch};
use media::logs::{Body as LogBody, Kind as LogKind};
use media::axum::extract::Error;
use media::exe::serve::web::route::{found, of_kind};
use media::uuid::Uuid;

fn id(n: u128) -> Uuid {
    Uuid::from_u128(n)
}

fn film() -> Film {
    Film { id: id(7), tmdb: Some(603), title: "The Matrix".to_string(), year: Some(1999), rating: Some(5) }
}

#[test]
fn kind_names_round_trip() {
    for k in [Kind::Book, Kind::Film, Kind::Game, Kind::Link, Kind::Show] {
        assert_eq!(Kind::parse(k.as_str()), Some(k));
    }
    assert_eq!(Kind::Book.as_str(), "book");
    assert_eq!(Kind::Show.as_str(), "show");
    assert_eq!(Kind::parse("Book"), None);
    assert_eq!(Kind::parse(""), None);
}

#[test]
fn log_kind_round_trip() {
    for k in [LogKind::Start, LogKind::Stop, LogKind::Done] {
        assert_eq!(LogKind::from_sql(k.to_sql()).unwrap(), k);
    }
    assert_eq!(LogKind::Done.to_sql(), "done");
    let err = LogKind::from_sql("paused".to_string()).unwrap_err();
    assert_eq!(err.text, "paused");
}

#[test]
fn log_body_defaults_date_to_now() {
    let log = LogBody { kind: LogKind::Start, date: None }.into_log(id(1), 1_700_000_000);
    assert_eq!(log.date, 1_700_000_000);
    let log = LogBody { kind: LogKind::Stop, date: Some(5) }.into_log(id(2), 1_700_000_000);
    assert_eq!(log.date, 5);
    assert_eq!(log.kind, LogKind::Stop);
    assert_eq!(log.id, id(2));
}

#[test]
fn item_kind_and_id() {
    let item = Item::Film(film());
    assert_eq!(item.kind(), Kind::Film);
    assert_eq!(item.id(), id(7));
    assert_eq!(Film::KIND, Kind::Film);
}

#[test]
fn patch_leaves_absent_fields() {
    let mut f = film();
    let p = FilmPatch { title: Some("Matrix".to_string()), ..Default::default() };
    assert!(!p.is_empty());
    p.apply(&mut f);
    assert_eq!(f.title, "Matrix");
    assert_eq!(f.tmdb, Some(603));
    assert_eq!(f.year, Some(1999));
    assert_eq!(f.rating, Some(5));
    assert_eq!(f.id, id(7));
}

#[test]
fn patch_null_clears_field() {
    let mut f = film();
    let p = FilmPatch { rating: Some(None), year: Some(Some(2000)), ..Default::default() };
    p.apply(&mut f);
    assert_eq!(f.rating, None);
    assert_eq!(f.year, Some(2000));
    assert_eq!(f.title, "The Matrix");
}

#[test]
fn empty_patch_changes_nothing() {
    let p = LinkPatch::default();
    assert!(p.is_empty());
    let mut l = Link { id: id(3), url: "https://example.org".to_string(), title: None };
    p.apply(&mut l);
    assert_eq!(l.url, "https://example.org");
    assert_eq!(l.title, None);
    assert!(BookPatch::default().is_empty());
    assert!(!BookPatch { isbn: Some(None), ..Default::default() }.is_empty());
}

#[test]
fn book_body_into_item() {
    let b: Book = BookBody {
        isbn: Some("9780441013593".to_string()),
        hcid: None,
        title: "Dune".to_string(),
        cover: None,
        about: None,
        color: Some("#c80".to_string()),
    }
    .into_item(id(9));
    assert_eq!(b.id, id(9));
    assert_eq!(b.title, "Dune");
    assert_eq!(b.color.as_deref(), Some("#c80"));
}

#[test]
fn systems_patch_columns_and_games() {
    let games_only = SystemsPatch { game: Some(vec![id(1)]), ..Default::default() };
    assert!(!games_only.is_empty());
    assert!(!games_only.has_columns());
    let title = SystemsPatch { title: Some("SNES".to_string()), ..Default::default() };
    assert!(title.has_columns());
    assert!(SystemsPatch::default().is_empty());
    let mut row = SystemsRow {
        id: id(4),
        title: "Super Nintendo".to_string(),
        system: Some("snes".to_string()),
        region: None,
        model: None,
        revision: None,
        serial: None,
        variant: None,
        complete: false,
        modified: false,
    };
    SystemsPatch { complete: Some(true), region: Some(Some("NTSC".to_string())), ..Default::default() }
        .apply(&mut row);
    assert!(row.complete);
    assert_eq!(row.region.as_deref(), Some("NTSC"));
    assert_eq!(row.title, "Super Nintendo");
}

#[test]
fn owned_body_flags_default_false_and_resolve() {
    let row: OwnedRow = OwnedBody {
        game: id(5),
        system: Some("n64".to_string()),
        region: None,
        model: None,
        revision: None,
        serial: Some("NUS-001".to_string()),
        complete: None,
        modified: Some(true),
    }
    .into_row(id(6));
    assert_eq!(row.id, id(6));
    assert_eq!(row.game, id(5));
    assert!(!row.complete);
    assert!(row.modified);
    let game = Game { id: id(5), title: "Mario 64".to_string(), system: None, rating: None };
    let owned = row.resolve(game);
    assert_eq!(owned.game.title, "Mario 64");
    assert_eq!(owned.serial.as_deref(), Some("NUS-001"));
    assert_eq!(owned.id, id(6));
}

fn link_record(n: u128) -> Record<Item> {
    Record {
        item: Item::Link(Link { id: Uuid::from_u128(n), url: "https://a.example".to_string(), title: None }),
        meta: Meta { created: 1, updated: 2 },
        logs: Vec::new(),
        tags: vec!["web".to_string()],
    }
}

#[test]
fn fetch_answers_by_media_row_and_item() {
    assert!(matches!(found(None, None), Err(Error::NotFound)));
    assert!(matches!(found(None, Some(link_record(1))), Err(Error::NotFound)));
    match found(Some(Kind::Link), None) {
        Err(Error::Internal(m)) => assert_eq!(m, "Record not found"),
        _ => panic!("expected an internal error"),
    }
    let r = found(Some(Kind::Link), Some(link_record(1)));
    assert!(matches!(r, Ok(ref x) if x.tags == vec!["web".to_string()]));
}

#[test]
fn fetch_of_kind_refuses_other_kinds() {
    assert!(matches!(of_kind(Some(link_record(2)), Kind::Link), Ok(_)));
    assert!(matches!(of_kind(Some(link_record(2)), Kind::Book), Err(Error::NotFound)));
    assert!(matches!(of_kind(None, Kind::Link), Err(Error::NotFound)));
}

#[test]
fn modify_writes_only_a_nonempty_patch() {
    let link = Link { id: Uuid::from_u128(3), url: "https://a.example".to_string(), title: None };
    assert!(LinkPatch::default().modified(link.clone()).is_none());
    let patch = LinkPatch { url: None, title: Some(Some("A".to_string())) };
    let out = patch.modified(link).expect("a patch with a field writes");
    assert_eq!(out.title, Some("A".to_string()));
    assert_eq!(out.url, "https://a.example");
}
