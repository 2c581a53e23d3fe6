//! A small SSH certificate authority: it holds a signing keypair and issues
//! short-lived OpenSSH certificates that bind a subject key to a list of
//! principals.

pub mod ca;
mod clock;
pub mod openssh;
