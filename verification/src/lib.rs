//! Verified core of the AI gateway console: paging, SQL statement
//! construction, site and cluster record conversion, change-log
//! bookkeeping, traffic analytics aggregation, ACME helpers and the
//! user/session rules.

pub mod page;
pub mod text;
pub mod records;
pub mod sql;
pub mod binds;
pub mod site;
pub mod site_rows;
pub mod site_update;
pub mod cert;
pub mod acme;
pub mod changelog;
pub mod analytics;
pub mod user;
pub mod cluster;
pub mod api;
pub mod connection;
pub mod config;
