use media::db::{assemble, labels_for, partition, values_for, MediaRow};
use media::exe::dump::fmt::json::{attach, systems_data, Dump, Games};
use media::exe::load::fmt::json::{index, plan, Insert};
use media::film::Film;
use media::game::systems::{Data as SystemsData, Row as SystemsRow};
use media::item::{Item, Kind, Meta, Record};
use media::link::Link;
use media::logs::{Kind as LogKind, Log};
use media::uuid::Uuid;

fn id(n: u128) -> Uuid {
    Uuid::from_u128(n)
}

fn row(n: u128, kind: &str, created: i64) -> MediaRow {
    (id(n), kind.to_string(), created, created + 1)
}

fn film(n: u128, title: &str) -> Item {
    Item::Film(Film { id: id(n), tmdb: None, title: title.to_string(), year: None, rating: None })
}

fn link(n: u128) -> Item {
    Item::Link(Link { id: id(n), url: format!("https://example.org/{n}"), title: None })
}

#[test]
fn partition_by_kind_in_row_order() {
    let rows = vec![row(1, "film", 10), row(2, "link", 11), row(3, "film", 12), row(4, "comic", 13)];
    let p = partition(&rows);
    assert_eq!(p.film, vec![id(1), id(3)]);
    assert_eq!(p.link, vec![id(2)]);
    assert!(p.book.is_empty() && p.game.is_empty() && p.show.is_empty());
}

#[test]
fn values_grouped_in_pair_order() {
    let pairs = vec![(id(1), "b".to_string()), (id(2), "x".to_string()), (id(1), "a".to_string())];
    assert_eq!(labels_for(&pairs, id(1)), vec!["b".to_string(), "a".to_string()]);
    assert!(labels_for(&pairs, id(3)).is_empty());
    let refs = vec![(id(5), id(7)), (id(5), id(8)), (id(6), id(9))];
    assert_eq!(values_for(&refs, id(5)), vec![id(7), id(8)]);
}

#[test]
fn assemble_records_in_row_order() {
    let rows = vec![row(2, "link", 20), row(1, "film", 10), row(9, "film", 30), row(2, "link", 40)];
    let items = vec![film(1, "Alien"), link(2)];
    let tags = vec![(id(1), "scifi".to_string()), (id(2), "web".to_string()), (id(1), "horror".to_string())];
    let logs = vec![(id(1), Log { id: id(100), kind: LogKind::Done, date: 5 })];
    let recs = assemble(&rows, &items, &tags, &logs);
    // Row 9 has no item; the second row of 2 is a repeat.
    assert_eq!(recs.len(), 2);
    assert_eq!(recs[0].item.id(), id(2));
    assert_eq!(recs[0].meta.created, 20);
    assert_eq!(recs[0].meta.updated, 21);
    assert_eq!(recs[0].tags, vec!["web".to_string()]);
    assert!(recs[0].logs.is_empty());
    assert_eq!(recs[1].item.kind(), Kind::Film);
    assert_eq!(recs[1].tags, vec!["scifi".to_string(), "horror".to_string()]);
    assert_eq!(recs[1].logs.len(), 1);
    assert_eq!(recs[1].logs[0].id, id(100));
}

#[test]
fn assemble_takes_last_loaded_item() {
    let rows = vec![row(1, "film", 1)];
    let items = vec![film(1, "First"), film(1, "Second")];
    let recs = assemble(&rows, &items, &vec![], &vec![]);
    match &recs[0].item {
        Item::Film(f) => assert_eq!(f.title, "Second"),
        _ => panic!("expected a film"),
    }
}

fn console(n: u128) -> SystemsRow {
    SystemsRow {
        id: id(n),
        title: format!("console {n}"),
        system: None,
        region: None,
        model: None,
        revision: None,
        serial: None,
        variant: None,
        complete: true,
        modified: false,
    }
}

#[test]
fn attach_refs_to_first_owner() {
    let owners = vec![id(1), id(2), id(1)];
    let pairs = vec![(id(1), id(10)), (id(2), id(20)), (id(1), id(11))];
    let r = attach(&owners, &pairs);
    assert_eq!(r, vec![vec![id(10), id(11)], vec![id(20)], vec![]]);
    let data = systems_data(vec![console(1), console(3)], &pairs);
    assert_eq!(data.len(), 2);
    assert_eq!(data[0].game, vec![id(10), id(11)]);
    assert!(data[1].game.is_empty());
    assert_eq!(data[1].row.title, "console 3");
}

#[test]
fn games_is_empty() {
    let g = Games { systems: vec![], copies: vec![], extras: vec![] };
    assert!(g.is_empty());
    let g = Games { systems: vec![SystemsData { row: console(1), game: vec![] }], copies: vec![], extras: vec![] };
    assert!(!g.is_empty());
}

#[test]
fn load_plan_order() {
    let dump = Dump {
        media: vec![Record {
            item: film(1, "Alien"),
            meta: Meta { created: 3, updated: 4 },
            logs: vec![Log { id: id(50), kind: LogKind::Start, date: 9 }],
            tags: vec!["scifi".to_string(), "classic".to_string()],
        }],
        games: Games {
            systems: vec![SystemsData { row: console(2), game: vec![id(30), id(31)] }],
            copies: vec![],
            extras: vec![],
        },
    };
    let p = plan(dump);
    assert_eq!(p.len(), 8);
    match &p[0] {
        Insert::Media { id: m, kind, created, updated } => {
            assert_eq!(*m, id(1));
            assert_eq!(*kind, Kind::Film);
            assert_eq!((*created, *updated), (3, 4));
        },
        _ => panic!("expected the media row first"),
    }
    assert!(matches!(&p[1], Insert::Item(Item::Film(_))));
    match (&p[2], &p[3]) {
        (Insert::Tag { media: a, label: x }, Insert::Tag { media: b, label: y }) => {
            assert_eq!((*a, *b), (id(1), id(1)));
            assert_eq!((x.as_str(), y.as_str()), ("scifi", "classic"));
        },
        _ => panic!("expected two tags"),
    }
    assert!(matches!(&p[4], Insert::Log { media, log } if *media == id(1) && log.id == id(50)));
    assert!(matches!(&p[5], Insert::System(r) if r.id == id(2)));
    assert!(matches!(&p[6], Insert::SystemGame { system, game, idx: 0 } if *system == id(2) && *game == id(30)));
    assert!(matches!(&p[7], Insert::SystemGame { game, idx: 1, .. } if *game == id(31)));
}

#[test]
fn game_index_saturates() {
    assert_eq!(index(0), 0);
    assert_eq!(index(41), 41);
    assert_eq!(index(usize::MAX), if usize::BITS >= 64 { i64::MAX } else { usize::MAX as i64 });
}
