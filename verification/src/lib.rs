//! Verified core of a "trending repositories of the day" command-line tool:
//! the filters applied to fetched repositories, the parsing of the `star`
//! and `clone` subcommand arguments, and the freshness rules of the
//! starred-repositories cache.

pub mod ascii;
pub mod commands;
pub mod filters;
pub mod model;
pub mod starred;
pub mod text;
