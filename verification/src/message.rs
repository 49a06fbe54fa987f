//! Plain models of the inbound message shapes: the latest known source
//! snapshot and the partial patch carried by an update notification.
//!
//! An update may leave the author or the content out; an omitted field
//! means "unchanged", and applying the patch keeps the prior value.

use vstd::prelude::*;

verus! {

/// The author metadata a snapshot keeps: stable id, whether the account is
/// a bot, and the display name used when impersonating.
#[derive(Clone)]
pub struct Author {
    pub id: u64,
    pub bot: bool,
    pub name: Vec<char>,
}

/// The latest known state of one source message.
#[derive(Clone)]
pub struct MessageSnapshot {
    pub id: u64,
    pub channel_id: u64,
    pub author: Author,
    pub content: Vec<char>,
}

/// A partial update to a source message; `None` means the field is
/// unchanged.
pub struct MessagePatch {
    pub author: Option<Author>,
    pub content: Option<Vec<char>>,
}

/// The snapshot after a partial patch: fields the patch sets are
/// replaced, omitted fields retain their prior value, and the message's
/// identity (id, channel) is untouched.
pub open spec fn spec_patched(s: MessageSnapshot, p: MessagePatch) -> MessageSnapshot {
    MessageSnapshot {
        id: s.id,
        channel_id: s.channel_id,
        author: if p.author is Some {
            p.author->0
        } else {
            s.author
        },
        content: if p.content is Some {
            p.content->0
        } else {
            s.content
        },
    }
}

impl MessageSnapshot {
    /// Apply a partial patch over this snapshot.
    pub fn apply_patch(&mut self, patch: MessagePatch)
        ensures
            *final(self) == spec_patched(*old(self), patch),
    {
        if let Some(author) = patch.author {
            self.author = author;
        }
        if let Some(content) = patch.content {
            self.content = content;
        }
    }
}

} // verus!
