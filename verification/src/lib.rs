//! Access layer for uploads to a Cloudflare R2 bucket, with the local ledger
//! of what was uploaded.
//!
//! The library decides and computes; reading files, the environment and the
//! network is left to the caller, who hands in what was found and gets back
//! what to do with it.

pub mod client;
mod clock;
pub mod commands;
pub mod decimal;
pub mod delete;
pub mod error;
pub mod files;
pub mod r2;
pub mod storage;
pub mod upload;
