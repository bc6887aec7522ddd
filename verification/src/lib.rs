//! Aggregates browsing-history records from locally installed web browsers
//! into a single list ranked by "frecency" (frequency + recency).
//!
//! The crate is organised leaf-first:
//! - [`browser`] holds the browser registry: the closed set of supported
//!   browsers, their per-OS storage-path templates and extraction queries,
//!   and the normalized history record type.
//! - [`text`] holds the small string routines the registry and the snapshot
//!   naming scheme are built on (decimal rendering, home-marker substitution).
//! - [`snapshot`] plans the locked-file copies into a scratch area and
//!   discovers the snapshots produced there.
//! - [`collate`] resolves every browser's schema and merges per-snapshot
//!   record batches in a deterministic order.
//! - [`ranking`] scores each record and produces the bounded, descending
//!   ranked output.

pub mod browser;
pub mod collate;
pub mod ranking;
pub mod snapshot;
pub mod text;
