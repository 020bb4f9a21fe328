//! A correction pipeline for public-transit feeds.
//!
//! A feed is a bundle of relational tables (agencies, routes, trips,
//! stop times, stops, shapes, calendars).  The pipeline scans the loaded
//! tables for known data-quality defects — broken shape geometry, rail
//! trips assigned to the wrong service day when their schedule crosses
//! midnight in a non-reference time zone, superseded agencies and routes,
//! stale stop coordinates, and phantom trips — and emits a corrected
//! bundle in the same schema, keeping every cross-table reference intact.
//!
//! Network retrieval, archive decompression and on-disk parsing are left
//! to the caller: the pipeline consumes already-materialized in-memory
//! tables and produces corrected in-memory tables.

pub mod config;
pub mod correct;
pub mod detect;
pub mod emit;
pub mod laws;
pub mod model;
pub mod pipeline;
pub mod routes_info;
pub mod strutil;
pub mod zones;
