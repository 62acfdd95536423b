//! Registries on a ledger of storage cells.
//!
//! A registry maps caller-chosen keys to records. Every record lives in a
//! storage cell whose address is derived from the key, so a key names at most
//! one record. An authority gates writes, may charge a fee for each new
//! entry, marks entries as verified and publishes the schemas that entry
//! payloads follow.
//!
//! The ground that every registry stands on: [`address`], [`derivation`],
//! [`store`], [`funds`], [`schema`], [`ledger`] and [`error`]. The full
//! registry, with everything an authority can do, is [`registry`]. The others
//! are registries with fewer rules or other ones: [`verified_registry`],
//! [`program_registry`], [`certificate_registry`],
//! [`permissionless_registry`], [`permissionless_verifiable_registry`] and
//! [`permissionless_verifiable_updateable_registry`].
//!
//! A request names the cells it touches and comes with its inputs. An
//! operation checks the request in a fixed order, reports the first check
//! that fails, and changes the ledger only if every check passed. What an
//! operation answers and what it leaves behind is stated as a function of
//! the state before, the request and the time.

pub mod address;
pub mod certificate_registry;
pub mod derivation;
pub mod error;
pub mod funds;
pub mod ledger;
pub mod permissionless_registry;
pub mod permissionless_verifiable_registry;
pub mod permissionless_verifiable_updateable_registry;
pub mod program_registry;
pub mod registry;
pub mod schema;
pub mod store;
pub mod verified_registry;
