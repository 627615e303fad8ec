//! Thermal and performance analysis of ASIC mining boards: where each chip
//! sits on its board, how much hotter it runs than the chips upstream of
//! it and than the same position on the other boards, and how far its
//! share count falls below its board's average. Also reads the miner's
//! status pages into records and resolves a model's board geometry.

pub mod analysis;
pub mod config;
pub mod config_table;
pub mod i18n;
pub mod ingest;
pub mod lemmas;
pub mod models;
pub mod severity;
pub mod text;
pub mod topology;
