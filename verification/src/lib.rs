//! Verified core of a bare-metal provisioning pipeline for a single-board
//! computer: partition naming, filesystem-identifier extraction, mount-table
//! planning, bootloader configuration text, and the ordered step list that a
//! thin runner executes.

pub mod extlinux;
pub mod fstab;
pub mod naming;
pub mod pipeline;
pub mod strutil;
pub mod uuid;
