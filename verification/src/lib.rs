//! Decisions of an operating system image, kept apart from the machine they
//! are taken on.
//!
//! While a host boots, configuration fragments are gathered from the sources
//! that are there (a local file, the identity of the instance, the user data
//! it was launched with) and each is brought into one canonical, JSON-shaped
//! form: see [`provider`], [`settings`], [`compression`] and [`json`].
//!
//! While an image is built, the dependencies of packages written in Go are
//! vendored: see [`gomod`].
//!
//! Nothing here reads a file, asks a service or starts a command.  The caller
//! does, and hands over what came back; what is then done with it is stated
//! for every value that may come back.

pub mod compression;
pub mod gomod;
pub mod json;
pub mod provider;
pub mod settings;
