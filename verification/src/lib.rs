//! A verified bridge between a domain collaborator's real-time feeds and a
//! push-based UI consumer, together with an adapter that satisfies a
//! synchronous signing contract by delegating to foreign callbacks.
//!
//! The domain library itself (group membership, messaging, search) is an
//! opaque collaborator: this crate only relays its data. The two components
//! here are the subscription bridge (snapshot-then-updates delivery with
//! lag tolerance) and the external signer adapter.

pub mod account_groups;
pub mod bridge;
pub mod chat_list;
pub mod error;
pub mod event_json;
pub mod messages;
pub mod notifications;
pub mod replay;
pub mod settings;
pub mod signer;
pub mod user_search;
pub mod utils;

use vstd::prelude::*;

verus! {

/// Configuration handed over by the host runtime: directory paths as plain
/// strings, converted to filesystem paths only at the process edge.
pub struct WhitenoiseConfig {
    /// Directory where application data is stored.
    pub data_dir: String,
    /// Directory where log files are written.
    pub logs_dir: String,
}

/// Builds a [`WhitenoiseConfig`] from string directory paths.
pub fn create_whitenoise_config(data_dir: String, logs_dir: String) -> (c: WhitenoiseConfig)
    ensures
        c.data_dir == data_dir,
        c.logs_dir == logs_dir,
{
    WhitenoiseConfig { data_dir, logs_dir }
}

} // verus!
