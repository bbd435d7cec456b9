//! The decision logic of a command-line tool for self-encrypting drives
//! (TCG Opal, Pyrite, Enterprise, ...): parsing UIDs, choosing the device,
//! turning sub-commands into requests, applying locking-range updates,
//! picking an authority by name and rendering the discovery report.
//!
//! Talking to the drive, printing and argument parsing live with the
//! program that uses this library.
pub mod authority;
pub mod device;
pub mod discovery;
pub mod permission;
pub mod provisioning;
pub mod range;
pub mod text;
pub mod uid;
pub mod user;
