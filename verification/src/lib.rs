//! Verified core of the SoroScan indexing contract.
pub mod assoc_map;
pub mod contract;
pub mod laws;
pub mod types;
