//! Common types shared across the workspace's contracts.
use vstd::prelude::*;

verus! {

/// Campaign status of the shared contract interface.
#[derive(Clone, Copy, Debug, PartialEq, Eq, Structural)]
pub enum CampaignStatus {
    Draft,
    Active,
    Completed,
    Cancelled,
}

/// Status of a campaign milestone.
#[derive(Clone, Copy, Debug, PartialEq, Eq, Structural)]
pub enum MilestoneStatus {
    Pending,
    Completed,
    Failed,
}

/// An asset, identified by numeric code and issuer.
#[derive(Clone, Copy, Debug, PartialEq, Eq, Structural)]
pub struct AssetInfo {
    pub code: u32,
    pub issuer: u32,
}

/// Shared contract error codes.
#[derive(Clone, Copy, Debug, PartialEq, Eq, Structural)]
pub enum ErrorCode {
    /// Wire code 1.
    NotInitialized,
    /// Wire code 2.
    AlreadyInitialized,
    /// Wire code 3.
    Unauthorized,
    /// Wire code 4.
    InvalidAmount,
}

/// The wire code of each shared error.
pub open spec fn error_code_value(e: ErrorCode) -> u32 {
    match e {
        ErrorCode::NotInitialized => 1,
        ErrorCode::AlreadyInitialized => 2,
        ErrorCode::Unauthorized => 3,
        ErrorCode::InvalidAmount => 4,
    }
}

impl ErrorCode {
    /// The wire code of this error.
    pub fn code(self) -> (c: u32)
        ensures
            c == error_code_value(self),
    {
        match self {
            ErrorCode::NotInitialized => 1,
            ErrorCode::AlreadyInitialized => 2,
            ErrorCode::Unauthorized => 3,
            ErrorCode::InvalidAmount => 4,
        }
    }
}

} // verus!
