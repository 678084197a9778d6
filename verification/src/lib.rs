//! Codec and decision logic for querying the identity of a block storage
//! device through a generic SCSI command-passthrough interface.
//!
//! The crate covers four concerns, leaves first:
//! - `probe`: deciding whether a device handle's reported passthrough
//!   interface version is recent enough to trust;
//! - `layout`: building the fixed-layout transport request that carries a
//!   command descriptor block (CDB), and its exact byte-level encoding;
//! - `sense`: classifying a completed transport call into success or a
//!   device-reported condition, and rendering the diagnostic report;
//! - `inquiry`: decoding a successful INQUIRY response buffer into the
//!   device's identity fields.
//!
//! The actual control call against the device is I/O and lives outside this
//! crate; everything here is pure computation over the values that call
//! consumes and produces.

pub mod inquiry;
pub mod layout;
pub mod probe;
pub mod sense;
pub mod text;
