//! Launch negotiation for an interactive, host-integrated toolbox container.
//!
//! One binary plays two roles. On the host it is the launcher: it maps the
//! invoking user into the container's user namespace, chooses the bind
//! mounts that expose the host, leaves a handshake file, and hands over to
//! the container runtime with itself mounted as the entrypoint. In the
//! container it is the entrypoint: it reads the handshake file, creates the
//! user, and hands over to the user's shell.
//!
//! The library decides and computes. It asks the system who the user is and
//! which paths exist; running programs, reading and writing files and
//! replacing the process are left to the caller, who is told what to do next
//! and reports how it went.

pub mod entrypoint;
pub mod env;
pub mod error;
pub mod handshake;
pub mod host;
pub mod image;
pub mod launch;
pub mod mounts;
pub mod text;
pub mod uidmap;
