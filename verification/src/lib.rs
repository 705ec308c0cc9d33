//! Discriminator-tagged account records over raw byte buffers, and
//! deterministic allocation of the program-owned storage that holds them.
//!
//! Every storage account buffer starts with an 8-byte header: byte 0 holds a
//! one-byte record-kind tag, bytes 1..8 are reserved.  The fixed-layout,
//! little-endian fields of the record follow at byte 8.  The [`account`]
//! module validates a buffer against a record type's declared tag and size
//! before any read or write touches it; the [`allocate`] module creates the
//! backing account at an address derived from a seed list, without a private
//! key for that address.

pub mod account;
pub mod allocate;
pub mod discriminator;
pub mod error;
pub mod layout;
pub mod records;
