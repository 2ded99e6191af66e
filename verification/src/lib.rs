//! A migration handler for a tokenized asset ledger: it checks that the caller
//! holds exactly one unit of a non-fungible asset, re-issues the asset's
//! descriptive metadata under a program-derived authority, revokes the mint
//! authority so no further units can ever be issued, and burns one unit of a
//! second, caller-supplied holding.
//!
//! The handler itself is pure: it validates the supplied accounts and returns
//! either a [`plan::MigrationPlan`] that pins every parameter of the four
//! ledger calls to be issued, or the error that names the precondition that
//! failed. Performing the calls against the host ledger is left to the thin
//! runtime shell around this crate.

pub mod authority;
pub mod error;
pub mod handler;
pub mod keys;
pub mod layout;
pub mod plan;
pub mod records;
