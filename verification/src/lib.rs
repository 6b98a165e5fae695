//! Core logic of the Glint donation platform: streamer profiles, donation
//! records and their status life cycle, the mock payment service, the
//! overlay display protocol, accounts, navigation, paging, analytics data
//! and the documents served to search engines.
pub mod analytics;
pub mod auth;
pub mod db;
pub mod media;
pub mod navigation;
pub mod overlay;
pub mod pagination;
pub mod payments;
pub mod profile;
pub mod sitemap;
pub mod text;
