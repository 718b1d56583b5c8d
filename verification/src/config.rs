//! The settings of the daemon and what they are where no file says otherwise.

use crate::text::{text_is, text_of};
use vstd::prelude::*;

verus! {

/// The settings, as the configuration file gives them.
pub struct Config {
    /// The name of the player's process.
    pub player_name: String,
    /// Seconds to wait before the player is looked for.
    pub player_check_delay: u64,
    /// Whether the player's own check is run beside the look at its process.
    pub run_secondary_checks: bool,
    /// Whether the placeholder album of a compilation is left out.
    pub va_album_individual: bool,
    /// The account at the image host; without one no art is uploaded.
    pub catbox_user_hash: Option<String>,
}

/// The players that are supported.
#[derive(Clone, Copy, PartialEq, Eq, Structural, Debug)]
pub enum PlayerKind {
    Cmus,
}

/// The name of the one player that is supported.
pub open spec fn cmus_name() -> Seq<char> {
    "cmus"@
}

/// The content of a configuration file with the settings of `Config::default`.
pub open spec fn default_file_text() -> Seq<char> {
    "player_name = 'cmus'\nplayer_check_delay = 5\nrun_secondary_checks = true\nva_album_individual = true\n"@
}

impl Default for Config {
    /// The settings of a first run: cmus, five seconds, both switches on, no
    /// account.
    fn default() -> (r: Config)
        ensures
            r.player_name@ == cmus_name(),
            r.player_check_delay == 5,
            r.run_secondary_checks,
            r.va_album_individual,
            r.catbox_user_hash is None,
    {
        Config {
            player_name: String::from_str("cmus"),
            player_check_delay: 5,
            run_secondary_checks: true,
            va_album_individual: true,
            catbox_user_hash: None,
        }
    }
}

/// The player that a name stands for.
pub fn player_kind(player_name: &String) -> (r: Option<PlayerKind>)
    ensures
        r == if player_name@ == cmus_name() {
            Some(PlayerKind::Cmus)
        } else {
            None
        },
{
    if text_is(player_name, "cmus") {
        Some(PlayerKind::Cmus)
    } else {
        None
    }
}

/// What is written to a configuration file on a first run.
pub fn default_config_text() -> (r: String)
    ensures
        r@ == default_file_text(),
{
    String::from_str(
        "player_name = 'cmus'\nplayer_check_delay = 5\nrun_secondary_checks = true\nva_album_individual = true\n",
    )
}

/// Whether art is uploaded at all: only with an account at the image host.
pub fn has_account(config: &Config) -> (r: bool)
    ensures
        r == text_of(config.catbox_user_hash) is Some,
{
    config.catbox_user_hash.is_some()
}

} // verus!
