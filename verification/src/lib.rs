//! Audits, installs and removes the system configuration that lets
//! unprivileged users open the packet-capture (BPF) devices.
//!
//! The library holds the decisions: what a permission audit concludes, which
//! group id is free, which command line performs a change, and in which order
//! an installation or removal proceeds. Reading directories, running
//! processes and prompting the operator are left to the caller, who hands the
//! observations in as plain values.
//!
//! - [`bpf`], [`user`], [`listing`], [`daemon`] and [`permission`] hold the
//!   rules about devices, users and groups, the daemon and file permissions.
//! - [`handler`] is the audit; [`report`] and [`output`] draw its result.
//! - [`install`] and [`uninstall`] are the two operations that change the
//!   system, task by task; [`operation`] is their exchange with the caller.
//! - [`model`] states what holds of the two: both can be repeated, and a
//!   removal takes back an installation.

pub mod bpf;
pub mod command;
pub mod commands;
pub mod config;
pub mod daemon;
pub mod error;
pub mod handler;
pub mod install;
pub mod listing;
pub mod model;
pub mod operation;
pub mod output;
pub mod permission;
pub mod report;
pub mod text;
pub mod uninstall;
pub mod user;
