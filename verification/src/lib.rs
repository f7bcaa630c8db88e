//! A catalog adapter for the MangaDex API: it builds the request URLs, reads the
//! JSON answers and reshapes them into series, chapter and page records.

pub mod adapter;
pub mod catalog;
pub mod decode;
pub mod extract;
pub mod feed;
pub mod frame;
pub mod json;
pub mod records;
pub mod text;
pub mod urlencoding;
pub mod urls;
