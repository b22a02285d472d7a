//! Decision logic for installing distribution packages into containers and
//! publishing their binaries and desktop entries on the host.
//!
//! Nothing here runs a process or touches a file. Each function takes plain
//! values, such as what a command printed or whether a file exists, and
//! says what that means or what to do next; the program around the library
//! does it. What a function returns is stated in its contract and proved.
//!
//! - [`pkgdetect`] tells a package file's format.
//! - [`listing`] and [`release`] read the list of containers and a
//!   container's release file.
//! - [`select`] chooses the container to work in.
//! - [`install`] is the installation pipeline, one step at a time, with
//!   [`commands`] for what runs inside the container and [`scan`] for what
//!   a package offers.
//! - [`export`] plans how binaries and desktop entries reach the host.
//! - [`snapshot`] compares inventories of installed packages.
//! - [`config`], [`pm`], [`desktop`], [`mimeapps`], [`firstrun`] and [`cli`]
//!   hold the settings, the scripts for package managers, the desktop
//!   integration, the first run and the command line.
//! - [`text`], [`paths`], [`shell`], [`distro`] and [`error`] are shared by
//!   the others.

pub mod cli;
pub mod commands;
pub mod config;
pub mod desktop;
pub mod distro;
pub mod error;
pub mod export;
pub mod firstrun;
pub mod install;
pub mod listing;
pub mod mimeapps;
pub mod paths;
pub mod pkgdetect;
pub mod pm;
pub mod release;
pub mod scan;
pub mod select;
pub mod shell;
pub mod snapshot;
pub mod text;
