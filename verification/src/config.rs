//! Settings read at start-up.

use vstd::prelude::*;

verus! {

/// Telegram API credentials of the karma bot, as its `config.json` holds them.
#[derive(Debug)]
pub struct AppConfig {
    pub api_id: i32,
    pub api_hash: String,
    pub bot_token: String,
}

} // verus!
