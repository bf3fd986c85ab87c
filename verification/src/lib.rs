//! Host/device buffer synchronization for data-parallel compute devices.
//!
//! The crate keeps host-resident arrays and device-resident buffers in sync
//! through explicit `push` (host to device) and `pull` (device to host)
//! transfers.  An ordered collection of such paired buffers, each with a
//! per-field synchronization policy, gets two bulk operations: send every
//! field that opts into the host-to-device direction, and retrieve every
//! field that opts into the device-to-host direction, both in declaration
//! order and aborting at the first failing transfer.

pub mod device;
pub mod plan;
pub mod policy;
pub mod recording;
pub mod sync;
pub mod text;
