//! Terminal lyrics display: which lyrics source to ask and in what order,
//! how LRC and Genius pages are read, how lines are drawn in big block
//! letters, and what the desktop-panel daemon keeps between polls.
pub mod daemon;
pub mod fmt;
pub mod font;
pub mod genius;
pub mod lrc;
pub mod lyrics_api;
pub mod lyrics_ovh;
pub mod mpris;
pub mod netease;
pub mod pick;
pub mod session;
pub mod text;
pub mod unicode;
