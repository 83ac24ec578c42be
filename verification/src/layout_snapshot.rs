//! Single-slot storage for the latest successful layout of a document.
//!
//! The slot owns no layout world, cache, timer or invalidation policy: the
//! context host decides when to read, publish or clear it.  A read only sees
//! the layout of the document it asks for.

use vstd::prelude::*;
use crate::bridge_identity::DomHandle;

verus! {

/// The latest published layout output `O`, with the document it is of.
pub struct LatestLayoutSnapshotCache<O> {
    latest: Option<(DomHandle, O)>,
}

impl<O> LatestLayoutSnapshotCache<O> {
    /// The published document and output, if any.
    pub closed spec fn latest(&self) -> Option<(DomHandle, O)> {
        self.latest
    }

    /// An empty slot.
    pub fn new() -> (cache: Self)
        ensures
            cache.latest() is None,
    {
        LatestLayoutSnapshotCache { latest: None }
    }

    /// The latest output, if it is of `document`.
    pub fn get(&self, document: DomHandle) -> (output: Option<&O>)
        ensures
            match output {
                Some(o) => cached_output(self.latest(), document) == Some(*o),
                None => cached_output(self.latest(), document) is None,
            },
    {
        match &self.latest {
            Some((d, o)) => if *d == document {
                Some(o)
            } else {
                None
            },
            None => None,
        }
    }

    /// Publishes `output` as the latest layout of `document`, replacing
    /// whatever was there.
    pub fn publish(&mut self, document: DomHandle, output: O)
        ensures
            final(self).latest() == Some((document, output)),
    {
        self.latest = Some((document, output));
    }

    /// Empties the slot.
    pub fn clear(&mut self)
        ensures
            final(self).latest() is None,
    {
        self.latest = None;
    }

    /// The document of the latest output, if any (test support).
    pub fn published_document_for_testing(&self) -> (document: Option<DomHandle>)
        ensures
            document == (match self.latest() {
                Some((d, _)) => Some(d),
                None => None,
            }),
    {
        match &self.latest {
            Some((d, _)) => Some(*d),
            None => None,
        }
    }
}

/// What a read of `document` finds in slot contents `latest`.
pub open spec fn cached_output<O>(latest: Option<(DomHandle, O)>, document: DomHandle) -> Option<O> {
    match latest {
        Some((d, o)) => if d == document {
            Some(o)
        } else {
            None
        },
        None => None,
    }
}

/// A read after a publish gives back what was published for the same
/// document, and nothing for any other document.
pub proof fn law_read_after_publish<O>(published: LatestLayoutSnapshotCache<O>, document: DomHandle, output: O, other: DomHandle)
    requires
        published.latest() == Some((document, output)),
        other != document,
    ensures
        cached_output(published.latest(), document) == Some(output),
        cached_output(published.latest(), other) is None,
{
}

/// A read after a clear finds nothing.
pub proof fn law_read_after_clear<O>(cleared: LatestLayoutSnapshotCache<O>, document: DomHandle)
    requires
        cleared.latest() is None,
    ensures
        cached_output(cleared.latest(), document) is None,
{
}

} // verus!
