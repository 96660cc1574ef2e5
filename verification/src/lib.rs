//! A verified driver core for one bxCAN-style CAN controller.
//!
//! The driver translates logical CAN operations (send a frame, configure bus
//! timing, manage receive filters, query controller and error state) into
//! reads and writes of a mirrored register-field model, and translates status
//! bits back into portable state values.  The register model holds, as plain
//! values, exactly the named bit-fields the driver reads and writes; the
//! memory-mapped accesses themselves live outside this library, in the thin
//! hardware adapter that keeps the model in step with the peripheral.

pub mod controller;
pub mod filter;
pub mod frame;
pub mod mailbox;
pub mod status;
pub mod timing;
