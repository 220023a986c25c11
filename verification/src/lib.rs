//! Arrow-style fixed-size list arrays, scan source sets and the row-wise
//! lambda application driver of a columnar query engine, with their
//! contracts proved by Verus.

pub mod datatypes;
pub mod bitmap;
pub mod array;
pub mod fixed_size_list;
pub mod sources;
pub mod scan_sources;
pub mod frame;
pub mod apply;
pub mod sinks;
