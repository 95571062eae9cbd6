pub mod text;
pub mod uri;
pub mod scan;
pub mod size;
pub mod utils;
pub mod model;
pub mod upload;
pub mod tags;
pub mod upload_run;
pub mod feed;
pub mod selection;
pub mod forms;
pub mod edits;
pub mod merge;
pub mod web;
pub mod pages;
pub mod settings;
pub mod tag_cache;
pub mod bulk;
pub mod tokens;
pub mod categories;
pub mod removal;
pub mod routes;
