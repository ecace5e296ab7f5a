//! Configuration of a Spotify Connect daemon: the values a user may set, how the
//! command line and the sections of the configuration file are merged, and how
//! the settings that remain open are filled in.

pub mod backends;
pub mod cli;
pub mod device_id;
pub mod host;
pub mod internal;
pub mod paths;
pub mod proxy;
pub mod shared;
pub mod text;
pub mod values;
