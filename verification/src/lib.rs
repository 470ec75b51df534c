//! Media collection: the records of books, films, games, links and shows,
//! and the rules by which they are listed, patched, exported and imported.

pub mod axum;
pub mod book;
pub mod cfg;
pub mod db;
pub mod dir;
pub mod exe;
pub mod film;
pub mod game;
pub mod games;
pub mod item;
pub mod kind;
pub mod link;
pub mod logs;
pub mod patch;
pub mod show;
pub mod text;
pub mod uuid;

pub use self::item::{Item, Kind, Meta, Record};
pub use self::uuid::Uuid;
