//! Verified core of the relic archiver: turns the game's decoded commands
//! into the optimizer export format, keeps one exporter per account and
//! connection, and holds the decisions of the capture and of the user
//! interface.

pub mod accounts;
pub mod capture;
pub mod checks;
pub mod collect;
pub mod command;
pub mod converters;
pub mod database;
pub mod exporter;
pub mod gacha;
pub mod handlers;
pub mod keys;
pub mod laws;
pub mod logview;
pub mod models;
pub mod order;
pub mod platform;
pub mod proto;
pub mod seqs;
pub mod session;
pub mod settings;
pub mod sizes;
pub mod store;
pub mod text;
pub mod ui;
pub mod updater;
pub mod utils;
