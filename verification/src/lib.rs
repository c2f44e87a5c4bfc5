//! Conversion of the IEEE Registration Authority listings into the `ieee-oui.txt` vendor
//! mapping used by the ARP scanner, together with the operator-facing text the scanner and
//! the registry updater print.

pub mod registry;
pub mod text;
pub mod csv_source;
pub mod error;
pub mod assignment;
pub mod dedup;
pub mod convert;
pub mod render;
pub mod timing;
pub mod updater;
pub mod command;
pub mod frame;
pub mod laws;
pub mod outcome;
