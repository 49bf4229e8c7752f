//! Zero-copy market-data ingestion: an aligned arena allocator, fixed-layout
//! message framing, a streaming ingestion pipeline, and a suite of integrity
//! validators (checksum, numeric bounds, temporal ordering, symbol policy).

pub mod arena;
pub mod bounds;
pub mod checksum;
pub mod composite;
pub mod errors;
pub mod framing;
pub mod ingest;
pub mod symbol;
pub mod temporal;
