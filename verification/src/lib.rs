//! The core of a daemon that shows what a music player plays: what a track
//! shows of itself, the identity of its cover art, the cache of uploaded art,
//! and the form in which art is uploaded.
//!
//! Nothing here reads a file or talks to a network. Tags, status reports and
//! the contents of files come in as plain values, and plain values go out;
//! the daemon around this library does the rest.
//!
//! - [`metadata`] works out artist, title, album and art from the tags of a
//!   file, with [`policy`] deciding whether a compilation's album is shown
//!   and [`fingerprint`] giving the art its key.
//! - [`cache`] keeps the address of each piece of uploaded art by its key.
//! - [`artwork`] brings art into the square in which it is uploaded, through
//!   the codecs of [`codec`].
//! - [`presence`] decides whether art is looked up, probed or uploaded, and
//!   what is published.
//! - [`player`] reads the status report of the player.
//! - [`config`] and [`error_log`] hold the settings of a first run and the
//!   lines of the log.
//! - [`text`] and [`numeral`] are the text building blocks of the others.

pub mod artwork;
pub mod cache;
pub mod codec;
pub mod config;
pub mod error_log;
pub mod fingerprint;
pub mod metadata;
pub mod numeral;
pub mod player;
pub mod policy;
pub mod presence;
pub mod text;
