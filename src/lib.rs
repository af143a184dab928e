//! Rescue-environment bootloader repair: locating an installed root
//! filesystem, deciding how to enter it, and reconciling UEFI boot entries.
//! The process spawning, mounting and file reading live with the caller; this
//! library holds the decisions and parsing, each with a verified contract.

pub mod common;
pub mod text;
pub mod catalog;
pub mod locate;
pub mod chroot;
pub mod uefi;
pub mod repair;
