//! Mirroring of a single-page application's compiled bundle: discovery of every asset that a
//! build refers to, a wave-by-wave crawl over them, the choice of the scripts that the page
//! loads itself, and the text patches and page that serve the mirrored build.
pub mod asset_downloader;
pub mod cache;
pub mod client_ip;
pub mod config;
pub mod cookies;
pub mod index_page;
pub mod pattern;
pub mod patcher;
pub mod text;
