//! Online wallpaper catalogues: the item model, file naming of downloads,
//! and the parsers and URL builders of each source.
pub mod models;
pub mod cache;
pub mod bing;
pub mod minimalistic;
pub mod motionbgs;
pub mod updater;
pub mod wallhaven;
