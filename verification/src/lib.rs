//! A token-emission controller: releases a fungible token from a treasury to
//! a fixed set of beneficiaries according to independent monthly vesting
//! schedules, and computes a periodic tiered burn from circulating supply.
//!
//! The controller itself is a pure state machine: each operation takes the
//! persisted configuration and the values the host has already queried
//! (caller identity in canonical form, treasury balance, total supply) and
//! returns either an outbound instruction together with the advanced
//! configuration, or an error with the configuration untouched.

pub mod contract;
pub mod error;
pub mod instructions;
pub mod state;
