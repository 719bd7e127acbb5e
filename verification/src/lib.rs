//! Verified core of the MilestoneX campaign contracts: the multi-campaign
//! registry, the StellarAid contract, the token bridge skeleton, shared
//! types, and the argument checks of the command-line tool.
pub mod cli;
pub mod common;
pub mod contract;
pub mod event;
pub mod keyed;
pub mod laws;
pub mod registry;
pub mod stellar_aid;
pub mod storage;
pub mod sum;
pub mod token_bridge;
pub mod types;
