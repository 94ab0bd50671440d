//! Discovery of a build's assets and of the scripts its page loads first.
pub mod downloader;
pub mod entry_detector;
pub mod extractor;
