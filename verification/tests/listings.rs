use media::exe::dump::fmt::json::{read_query, Read};
use media::exe::serve::web::route::all::Bind;
use media::exe::serve::web::route::films::{
    records as film_records, Params as FilmParams, Row as FilmRow, Sort as FilmSort,
};
use media::exe::serve::web::route::links::{
    records as link_records, Params as LinkParams, Row as LinkRow, Sort as LinkSort,
};
use media::exe::serve::web::route::query::Order;
use media::logs::{Kind as LogKind, Log};
use media::uuid::Uuid;
use media::Item;

#[test]
fn film_listing_defaults_to_newest_first() {
    let p = FilmParams { q: None, tag: None, sort: None, order: None, limit: None, offset: None };
    let s = p.statement();
    assert_eq!(
        s.sql,
        "SELECT films.id, films.tmdb, films.title, films.year, films.rated, media.created, media.updated FROM films JOIN media ON media.id = films.id ORDER BY media.created DESC"
    );
    assert!(s.binds.is_empty());
}

#[test]
fn film_listing_searches_filters_sorts_and_pages() {
    let p = FilmParams {
        q: Some("alien".to_string()),
        tag: Some("horror".to_string()),
        sort: Some(FilmSort::Rating),
        order: Some(Order::Asc),
        limit: Some(10),
        offset: None,
    };
    let s = p.statement();
    assert_eq!(
        s.sql,
        "SELECT films.id, films.tmdb, films.title, films.year, films.rated, media.created, media.updated FROM films JOIN media ON media.id = films.id WHERE films.title LIKE '%' || ? || '%' AND EXISTS (SELECT 1 FROM tags WHERE tags.media = films.id AND tags.label = ?) ORDER BY films.rated ASC LIMIT ? OFFSET ?"
    );
    assert_eq!(s.binds.len(), 4);
    assert!(matches!(&s.binds[0], Bind::Text(t) if t == "alien"));
    assert!(matches!(&s.binds[1], Bind::Text(t) if t == "horror"));
    assert!(matches!(&s.binds[2], Bind::Int(10)));
    assert!(matches!(&s.binds[3], Bind::Int(0)));
}

#[test]
fn film_sort_columns() {
    assert_eq!(FilmSort::Title.as_col(), "films.title");
    assert_eq!(FilmSort::Year.as_col(), "films.year");
    assert_eq!(FilmSort::Rating.as_col(), "films.rated");
    assert_eq!(FilmSort::Updated.as_col(), "media.updated");
    assert!(matches!(FilmSort::default(), FilmSort::Created));
}

#[test]
fn film_records_carry_logs_and_tags_once_per_item() {
    let a = Uuid::from_u128(1);
    let b = Uuid::from_u128(2);
    let row = |id: Uuid, title: &str| FilmRow {
        id,
        tmdb: Some(7),
        title: title.to_string(),
        year: Some(1979),
        rating: Some(5),
        created: 10,
        updated: 20,
    };
    let logs = vec![
        (a, Log { id: Uuid::from_u128(9), kind: LogKind::Done, date: 30 }),
        (b, Log { id: Uuid::from_u128(8), kind: LogKind::Start, date: 40 }),
    ];
    let tags = vec![(a, "horror".to_string()), (a, "space".to_string())];
    let recs = film_records(vec![row(a, "Alien"), row(b, "Heat"), row(a, "Alien")], &logs, &tags);
    assert_eq!(recs.len(), 3);
    match &recs[0].item {
        Item::Film(f) => {
            assert_eq!(f.title, "Alien");
            assert_eq!(f.rating, Some(5));
        }
        _ => panic!("expected a film"),
    }
    assert_eq!(recs[0].meta.created, 10);
    assert_eq!(recs[0].meta.updated, 20);
    assert_eq!(recs[0].tags, vec!["horror".to_string(), "space".to_string()]);
    assert_eq!(recs[0].logs.len(), 1);
    assert_eq!(recs[0].logs[0].date, 30);
    assert!(recs[1].tags.is_empty());
    assert_eq!(recs[1].logs.len(), 1);
    assert!(recs[2].tags.is_empty());
    assert!(recs[2].logs.is_empty());
}

#[test]
fn link_listing_sorts_by_title() {
    let p = LinkParams {
        q: None,
        tag: None,
        sort: Some(LinkSort::Title),
        order: Some(Order::Asc),
        limit: None,
        offset: None,
    };
    let s = p.statement();
    assert_eq!(
        s.sql,
        "SELECT links.id, links.url, links.title, media.created, media.updated FROM links JOIN media ON media.id = links.id ORDER BY links.title ASC"
    );
    assert!(s.binds.is_empty());
}

#[test]
fn link_listing_filters_by_tag_with_offset() {
    let p = LinkParams {
        q: None,
        tag: Some("rust".to_string()),
        sort: None,
        order: None,
        limit: Some(5),
        offset: Some(15),
    };
    let s = p.statement();
    assert_eq!(
        s.sql,
        "SELECT links.id, links.url, links.title, media.created, media.updated FROM links JOIN media ON media.id = links.id WHERE EXISTS (SELECT 1 FROM tags WHERE tags.media = links.id AND tags.label = ?) ORDER BY media.created DESC LIMIT ? OFFSET ?"
    );
    assert_eq!(s.binds.len(), 3);
    assert!(matches!(&s.binds[0], Bind::Text(t) if t == "rust"));
    assert!(matches!(&s.binds[1], Bind::Int(5)));
    assert!(matches!(&s.binds[2], Bind::Int(15)));
}

#[test]
fn link_records_hold_links() {
    let a = Uuid::from_u128(3);
    let rows = vec![LinkRow {
        id: a,
        url: "https://example.org".to_string(),
        title: None,
        created: 1,
        updated: 2,
    }];
    let recs = link_records(rows, &Vec::new(), &vec![(a, "web".to_string())]);
    assert_eq!(recs.len(), 1);
    match &recs[0].item {
        Item::Link(l) => {
            assert_eq!(l.url, "https://example.org");
            assert_eq!(l.title, None);
        }
        _ => panic!("expected a link"),
    }
    assert_eq!(recs[0].tags, vec!["web".to_string()]);
    assert!(recs[0].logs.is_empty());
}

#[test]
fn dump_read_queries_order_each_table() {
    assert_eq!(read_query(Read::Media), "SELECT id, kind, created, updated FROM media ORDER BY created ASC");
    assert_eq!(read_query(Read::Tags), "SELECT label FROM tags WHERE media = ? ORDER BY label");
    assert_eq!(read_query(Read::Logs), "SELECT id, kind, date FROM logs WHERE media = ? ORDER BY date");
    assert!(read_query(Read::Copies).ends_with("FROM games_copies ORDER BY system ASC, title ASC"));
    assert_eq!(
        read_query(Read::ExtraGames),
        "SELECT extra AS owner, game FROM games_extras_ref ORDER BY extra, idx"
    );
}
