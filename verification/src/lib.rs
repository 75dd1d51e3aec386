//! Harmonizes transit-survey catalog exports from several missions into one
//! canonical record shape, collapses each mission's disposition vocabulary
//! into a single three-way classification, and partitions the records into
//! confirmed planets and confirmed non-planets for downstream training.

pub mod aggregate;
pub mod alias;
pub mod fields;
pub mod ingest;
pub mod status;
pub mod text;
