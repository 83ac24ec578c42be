//! Monotonic identity allocation for the frame-owner model.
//!
//! Every identity family has its own counter.  Each counter starts at one and
//! hands out its current value before advancing, so the identities of one
//! family are pairwise distinct and strictly increasing.

use vstd::prelude::*;

verus! {

/// Identity of a `WindowProxy`.
#[derive(Clone, Copy, Debug, PartialEq, Eq, Hash)]
pub struct WindowProxyId(pub u64);

/// Identity of a frame-local `Window`.
#[derive(Clone, Copy, Debug, PartialEq, Eq, Hash)]
pub struct LocalWindowId(pub u64);

/// Identity of a `Document`.
#[derive(Clone, Copy, Debug, PartialEq, Eq, Hash)]
pub struct DocumentId(pub u64);

/// Identity of one document load-delay token.
#[derive(Clone, Copy, Debug, PartialEq, Eq, Hash)]
pub struct DocumentLoadDelayTokenId(pub u64);

/// Identity of one document load-delivery admission.
#[derive(Clone, Copy, Debug, PartialEq, Eq, Hash)]
pub struct FrameDocumentLoadDeliveryAdmissionId(pub u64);

/// Identity of one frame navigation.
#[derive(Clone, Copy, Debug, PartialEq, Eq, Hash)]
pub struct FrameNavigationId(pub u64);

/// Identity of one frame realm (signed, as the script host keys realms).
#[derive(Clone, Copy, Debug, PartialEq, Eq, Hash)]
pub struct FrameRealmId(pub i64);

/// Identity of one frame request.
#[derive(Clone, Copy, Debug, PartialEq, Eq, Hash)]
pub struct FrameRequestId(pub u64);

/// Identity of one frame scheduler lane.
#[derive(Clone, Copy, Debug, PartialEq, Eq, Hash)]
pub struct FrameSchedulerLaneId(pub u64);

/// The next value of every counter of a [`FrameOwnerIdAllocator`].
pub struct FrameOwnerIdAllocatorView {
    pub window_proxy: int,
    pub local_window: int,
    pub document: int,
    pub document_load_delay_token: int,
    pub document_load_delivery_admission: int,
    pub frame_navigation: int,
    pub frame_realm: int,
    pub frame_request: int,
    pub scheduler_lane: int,
}

/// Per-family identity counters of one frame owner.
#[derive(Debug)]
pub struct FrameOwnerIdAllocator {
    next_window_proxy_id: u64,
    next_local_window_id: u64,
    next_document_id: u64,
    next_document_load_delay_token_id: u64,
    next_document_load_delivery_admission_id: u64,
    next_frame_navigation_id: u64,
    next_frame_realm_id: i64,
    next_frame_request_id: u64,
    next_scheduler_lane_id: u64,
}

impl View for FrameOwnerIdAllocator {
    type V = FrameOwnerIdAllocatorView;

    closed spec fn view(&self) -> FrameOwnerIdAllocatorView {
        FrameOwnerIdAllocatorView {
            window_proxy: self.next_window_proxy_id as int,
            local_window: self.next_local_window_id as int,
            document: self.next_document_id as int,
            document_load_delay_token: self.next_document_load_delay_token_id as int,
            document_load_delivery_admission: self.next_document_load_delivery_admission_id as int,
            frame_navigation: self.next_frame_navigation_id as int,
            frame_realm: self.next_frame_realm_id as int,
            frame_request: self.next_frame_request_id as int,
            scheduler_lane: self.next_scheduler_lane_id as int,
        }
    }
}

impl Default for FrameOwnerIdAllocator {
    /// An allocator whose counters all start at one.
    fn default() -> (a: Self)
        ensures
            a.wf(),
            a@ == (FrameOwnerIdAllocatorView {
                window_proxy: 1,
                local_window: 1,
                document: 1,
                document_load_delay_token: 1,
                document_load_delivery_admission: 1,
                frame_navigation: 1,
                frame_realm: 1,
                frame_request: 1,
                scheduler_lane: 1,
            }),
    {
        FrameOwnerIdAllocator::new()
    }
}

impl FrameOwnerIdAllocator {
    /// Every counter is at least one and fits its machine type.
    pub closed spec fn wf(&self) -> bool {
        &&& self.next_window_proxy_id >= 1
        &&& self.next_local_window_id >= 1
        &&& self.next_document_id >= 1
        &&& self.next_document_load_delay_token_id >= 1
        &&& self.next_document_load_delivery_admission_id >= 1
        &&& self.next_frame_navigation_id >= 1
        &&& self.next_frame_realm_id >= 1
        &&& self.next_frame_request_id >= 1
        &&& self.next_scheduler_lane_id >= 1
    }

    /// A fresh allocator whose counters all start at one.
    pub fn new() -> (a: Self)
        ensures
            a.wf(),
            a@ == (FrameOwnerIdAllocatorView {
                window_proxy: 1,
                local_window: 1,
                document: 1,
                document_load_delay_token: 1,
                document_load_delivery_admission: 1,
                frame_navigation: 1,
                frame_realm: 1,
                frame_request: 1,
                scheduler_lane: 1,
            }),
    {
        FrameOwnerIdAllocator {
            next_window_proxy_id: 1,
            next_local_window_id: 1,
            next_document_id: 1,
            next_document_load_delay_token_id: 1,
            next_document_load_delivery_admission_id: 1,
            next_frame_navigation_id: 1,
            next_frame_realm_id: 1,
            next_frame_request_id: 1,
            next_scheduler_lane_id: 1,
        }
    }

    /// Hands out the next `WindowProxy` identity.
    pub fn window_proxy(&mut self) -> (id: WindowProxyId)
        requires
            old(self).wf(),
            old(self)@.window_proxy < u64::MAX,
        ensures
            final(self).wf(),
            id.0 == old(self)@.window_proxy,
            final(self)@ == (FrameOwnerIdAllocatorView {
                window_proxy: old(self)@.window_proxy + 1,
                ..old(self)@
            }),
    {
        let id = WindowProxyId(self.next_window_proxy_id);
        self.next_window_proxy_id += 1;
        id
    }

    /// Hands out the next frame-local `Window` identity.
    pub fn local_window(&mut self) -> (id: LocalWindowId)
        requires
            old(self).wf(),
            old(self)@.local_window < u64::MAX,
        ensures
            final(self).wf(),
            id.0 == old(self)@.local_window,
            final(self)@ == (FrameOwnerIdAllocatorView {
                local_window: old(self)@.local_window + 1,
                ..old(self)@
            }),
    {
        let id = LocalWindowId(self.next_local_window_id);
        self.next_local_window_id += 1;
        id
    }

    /// Hands out the next `Document` identity.
    pub fn document(&mut self) -> (id: DocumentId)
        requires
            old(self).wf(),
            old(self)@.document < u64::MAX,
        ensures
            final(self).wf(),
            id.0 == old(self)@.document,
            final(self)@ == (FrameOwnerIdAllocatorView {
                document: old(self)@.document + 1,
                ..old(self)@
            }),
    {
        let id = DocumentId(self.next_document_id);
        self.next_document_id += 1;
        id
    }

    /// Hands out the next document load-delay token identity.
    pub fn document_load_delay_token(&mut self) -> (id: DocumentLoadDelayTokenId)
        requires
            old(self).wf(),
            old(self)@.document_load_delay_token < u64::MAX,
        ensures
            final(self).wf(),
            id.0 == old(self)@.document_load_delay_token,
            final(self)@ == (FrameOwnerIdAllocatorView {
                document_load_delay_token: old(self)@.document_load_delay_token + 1,
                ..old(self)@
            }),
    {
        let id = DocumentLoadDelayTokenId(self.next_document_load_delay_token_id);
        self.next_document_load_delay_token_id += 1;
        id
    }

    /// Hands out the next document load-delivery admission identity.
    pub fn document_load_delivery_admission(&mut self) -> (id:
        FrameDocumentLoadDeliveryAdmissionId)
        requires
            old(self).wf(),
            old(self)@.document_load_delivery_admission < u64::MAX,
        ensures
            final(self).wf(),
            id.0 == old(self)@.document_load_delivery_admission,
            final(self)@ == (FrameOwnerIdAllocatorView {
                document_load_delivery_admission: old(self)@.document_load_delivery_admission + 1,
                ..old(self)@
            }),
    {
        let id = FrameDocumentLoadDeliveryAdmissionId(
            self.next_document_load_delivery_admission_id,
        );
        self.next_document_load_delivery_admission_id += 1;
        id
    }

    /// Hands out the next frame navigation identity.
    pub fn frame_navigation(&mut self) -> (id: FrameNavigationId)
        requires
            old(self).wf(),
            old(self)@.frame_navigation < u64::MAX,
        ensures
            final(self).wf(),
            id.0 == old(self)@.frame_navigation,
            final(self)@ == (FrameOwnerIdAllocatorView {
                frame_navigation: old(self)@.frame_navigation + 1,
                ..old(self)@
            }),
    {
        let id = FrameNavigationId(self.next_frame_navigation_id);
        self.next_frame_navigation_id += 1;
        id
    }

    /// Hands out the next frame realm identity.
    pub fn frame_realm(&mut self) -> (id: FrameRealmId)
        requires
            old(self).wf(),
            old(self)@.frame_realm < i64::MAX,
        ensures
            final(self).wf(),
            id.0 == old(self)@.frame_realm,
            final(self)@ == (FrameOwnerIdAllocatorView {
                frame_realm: old(self)@.frame_realm + 1,
                ..old(self)@
            }),
    {
        let id = FrameRealmId(self.next_frame_realm_id);
        self.next_frame_realm_id += 1;
        id
    }

    /// Hands out the next frame request identity.
    pub fn frame_request(&mut self) -> (id: FrameRequestId)
        requires
            old(self).wf(),
            old(self)@.frame_request < u64::MAX,
        ensures
            final(self).wf(),
            id.0 == old(self)@.frame_request,
            final(self)@ == (FrameOwnerIdAllocatorView {
                frame_request: old(self)@.frame_request + 1,
                ..old(self)@
            }),
    {
        let id = FrameRequestId(self.next_frame_request_id);
        self.next_frame_request_id += 1;
        id
    }

    /// Hands out the next scheduler lane identity.
    pub fn scheduler_lane(&mut self) -> (id: FrameSchedulerLaneId)
        requires
            old(self).wf(),
            old(self)@.scheduler_lane < u64::MAX,
        ensures
            final(self).wf(),
            id.0 == old(self)@.scheduler_lane,
            final(self)@ == (FrameOwnerIdAllocatorView {
                scheduler_lane: old(self)@.scheduler_lane + 1,
                ..old(self)@
            }),
    {
        let id = FrameSchedulerLaneId(self.next_scheduler_lane_id);
        self.next_scheduler_lane_id += 1;
        id
    }
}

/// Within one family, an allocation hands out the current counter and
/// leaves a larger one, so every later identity of the family is larger
/// than every earlier one: identities are never reused.
pub proof fn law_later_identities_are_larger(handed_out: int, before: FrameOwnerIdAllocatorView, after: FrameOwnerIdAllocatorView, later: int)
    requires
        handed_out == before.document,
        after == (FrameOwnerIdAllocatorView { document: before.document + 1, ..before }),
        later >= after.document,
    ensures
        handed_out < later,
{
}

} // verus!
