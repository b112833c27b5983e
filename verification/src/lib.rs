//! Verified core of a personal media-catalog lookup tool.
//!
//! The library covers the logic of the tool: decoding raw catalog rows into
//! display-ready result records (names, colors, labels), parsing the
//! image-directory manifest, resolving catalog paths to image URLs, and the
//! state machines that drive the streaming downloads (progress accounting,
//! refresh sequencing, and last-request-wins image supersession).  All I/O —
//! the SQLite queries, the HTTP transfers, the user interface — lives outside
//! the library and hands it plain values.

pub mod details;
pub mod fetch;
pub mod images;
pub mod manifest;
pub mod paths;
pub mod projector;
pub mod queries;
pub mod refresh;
pub mod support;
pub mod text;
