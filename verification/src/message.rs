//! The value object carried by the hub.

use vstd::prelude::*;

verus! {

/// Most characters a room name may hold (exclusive bound).
pub const ROOM_LIMIT: usize = 30;

/// Most characters a username may hold (exclusive bound).
pub const USERNAME_LIMIT: usize = 20;

/// One chat message. Immutable once constructed; it is copied, never shared,
/// to each subscriber. It has no identity beyond structural equality.
pub struct Message {
    pub room: String,
    pub username: String,
    pub message: String,
}

impl Message {
    /// A message is valid when its bounded fields are within their limits;
    /// the body is free text of any length.
    pub open spec fn valid(self) -> bool {
        self.room@.len() < ROOM_LIMIT && self.username@.len() < USERNAME_LIMIT
    }

    /// Checks the field bounds that the inbound layer must enforce before a
    /// message reaches the hub.
    pub fn is_valid(&self) -> (r: bool)
        ensures
            r == self.valid(),
    {
        self.room.as_str().unicode_len() < ROOM_LIMIT
            && self.username.as_str().unicode_len() < USERNAME_LIMIT
    }
}

impl Clone for Message {
    /// The copy handed to a subscriber is indistinguishable from the message
    /// it was copied from.
    fn clone(&self) -> (r: Self)
        ensures
            r == *self,
    {
        Message {
            room: self.room.clone(),
            username: self.username.clone(),
            message: self.message.clone(),
        }
    }
}

} // verus!
