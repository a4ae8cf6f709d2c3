//! Channels: public text channels and direct-message channels between two
//! users.
use vstd::prelude::*;

use crate::session::Timestamp;

verus! {

#[derive(Clone, Copy, Debug, PartialEq, Eq, Structural)]
pub enum ChannelKind {
    Dm,
    Text,
}

/// A channel. A text channel has a name; a direct-message channel has its
/// two participants, the smaller id first.
#[derive(Debug)]
pub struct Channel {
    pub channel_id: u128,
    pub kind: ChannelKind,
    pub name: Option<String>,
    pub dm_user_low: Option<u128>,
    pub dm_user_low_username: Option<String>,
    pub dm_user_high: Option<u128>,
    pub dm_user_high_username: Option<String>,
    pub created_at: Timestamp,
}

} // verus!
