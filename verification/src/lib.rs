//! A capability-based authorization layer that mediates between an autonomous
//! agent and the side-effecting tools it may invoke. Given a proposed tool
//! invocation and a compiled policy, the enforcement engine decides whether
//! the invocation is permitted, at which privilege tier, and issues an
//! unforgeable, single-use capability token that only the execution path can
//! consume.

pub mod capability;
pub mod enforcement;
pub mod error;
pub mod policy;
pub mod providers;
pub mod tier;
pub mod tools;
