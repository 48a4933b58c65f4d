//! A client core for the Velocity hypervisor API.
//!
//! The library holds the session with a hypervisor (the authkey lifecycle),
//! builds the request of each endpoint, and turns each reply into a typed
//! result or an error. It performs no I/O itself: a caller sends each
//! `Request` over HTTP, reads the reply's status and JSON body into an
//! `HttpReply`, and hands that back to the library.

pub mod error;
pub mod json;
pub mod text;
pub mod transport;
pub mod session;
pub mod user;
pub mod group;
pub mod pool;
pub mod nic;
pub mod media;
pub mod upload;
pub mod vm;
pub mod input;
pub mod wizard;

pub use error::{ClientError, VelocityAPIError, VelocityError};
pub use session::{Authkey, Velocity};

use vstd::prelude::*;

verus! {

/// A user id
#[allow(clippy::upper_case_acronyms)]
pub type UID = i64;

/// A group id
#[allow(clippy::upper_case_acronyms)]
pub type GID = i64;

/// A permission id
#[allow(clippy::upper_case_acronyms)]
pub type PID = i64;

/// A media pool id
#[allow(clippy::upper_case_acronyms)]
pub type MPID = i64;

/// A media id
#[allow(clippy::upper_case_acronyms)]
pub type MID = String;

/// A host NIC id
#[allow(clippy::upper_case_acronyms)]
pub type NICID = i64;

/// A virtual machine id
#[allow(clippy::upper_case_acronyms)]
pub type VMID = i64;

} // verus!
