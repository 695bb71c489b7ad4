//! A background agent that periodically replaces the desktop wallpaper with
//! an image drawn from a remote image-search API. This library is the
//! agent's core: the event-driven control loop, its paginated result cache,
//! configuration-change detection, and the construction and reading of the
//! remote exchanges. The host around it performs the outside work (network,
//! files, the tray and the wallpaper call) under the library's directives.

pub mod config;
pub mod control;
pub mod numfmt;
pub mod query;
pub mod response;
pub mod rng;
