//! Verified core of a driver for an external OpenPGP command-line tool.
//!
//! The crate builds the tool's invocations (argument lists, key-generation
//! input, passphrase checks), decodes its machine-readable output (the
//! colon-separated key listing, the status channel, the version probe), and
//! classifies outcomes into typed errors.  Spawning the external process and
//! the surrounding I/O live outside the library; everything here is plain
//! computation with contracts.

pub mod colons;
pub mod enums;
pub mod errors;
pub mod external;
pub mod gnupg;
pub mod keygen;
pub mod passphrase;
pub mod request;
pub mod response;
pub mod status;
pub mod text;
pub mod version;
