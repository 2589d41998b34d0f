//! Change detection for the clipboard.
//!
//! Reading and writing the platform clipboard is left to the caller; what is
//! decided here is whether a content that was read is new.

use vstd::prelude::*;

use crate::protocol::messages::content_digest;
use crate::protocol::{ClipboardContent, ContentHash};

verus! {

/// Remembers the hash of the content last seen on the clipboard.
pub struct ClipboardManager {
    last_hash: Option<ContentHash>,
}

/// A change of the clipboard: the new content and its hash.
#[derive(Debug, Clone)]
pub struct ClipboardChange {
    pub content: ClipboardContent,
    pub hash: ContentHash,
}

impl ClipboardManager {
    /// The hash of the content last seen, if any.
    pub closed spec fn last_seen(&self) -> Option<Seq<u8>> {
        match self.last_hash {
            Some(hash) => Some(hash.0@),
            None => None,
        }
    }

    /// A manager that has seen nothing yet.
    pub fn new() -> (manager: Self)
        ensures
            manager.last_seen() is None,
    {
        ClipboardManager { last_hash: None }
    }

    /// Takes what was just read from the clipboard and reports it if it
    /// differs from what was seen last. An empty clipboard is forgotten and
    /// never reported.
    pub fn check_change(&mut self, content: Option<ClipboardContent>) -> (changed: Option<
        ClipboardContent,
    >)
        ensures
            match content {
                Some(c) => final(self).last_seen() == Some(content_digest(c)) && changed == (
                if old(self).last_seen() == Some(content_digest(c)) {
                    None
                } else {
                    Some(c)
                }),
                None => final(self).last_seen() is None && changed is None,
            },
    {
        match content {
            Some(c) => {
                let hash = c.hash();
                let seen = match &self.last_hash {
                    Some(last) => last.same(&hash),
                    None => false,
                };
                self.last_hash = Some(hash);
                if seen {
                    None
                } else {
                    Some(c)
                }
            },
            None => {
                self.last_hash = None;
                None
            },
        }
    }

    /// Records a content as seen without reporting it, for content that this
    /// device wrote to the clipboard itself.
    pub fn update_hash(&mut self, content: &ClipboardContent)
        ensures
            final(self).last_seen() == Some(content_digest(*content)),
    {
        self.last_hash = Some(content.hash());
    }
}

impl Default for ClipboardManager {
    fn default() -> (manager: Self)
        ensures
            manager.last_seen() is None,
    {
        Self::new()
    }
}

} // verus!
