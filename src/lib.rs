//! Link curation: a cursor-paginated feed reader, a redirect-following
//! liveness probe and the purge coordinator that acts on its verdicts.
pub mod bot;
pub mod db;
pub mod parse_args;
pub mod purge_links;
pub mod reddit_api;
pub mod scrapper;
pub mod settings;
pub mod text;
pub mod uri;
pub mod utils;
