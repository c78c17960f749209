//! The decisions of the RPC I/O loop: how an inbound message is routed, which
//! outstanding call a response resolves, and which failures end the session.
//! The loop itself — reading, decoding, awaiting — lives outside the core and
//! acts on the values these functions return.

use vstd::prelude::*;
use crate::text::str_eq;

verus! {

/// One inbound message, after the codec decoded its envelope.
#[derive(Clone, PartialEq, Eq, Debug)]
pub enum InboundMessage {
    /// A reply to a call this client issued.
    Response { msgid: u64 },
    /// An editor-to-client call; unsupported.
    Request { msgid: u64 },
    /// An event notification.
    Notification { method: String },
}

/// What the I/O loop must do with one inbound message.
#[derive(Clone, Copy, PartialEq, Eq, Debug)]
pub enum MessageAction {
    /// Hand the response to the pending-call registry.
    DeliverResponse { msgid: u64 },
    /// Editor-to-client requests are unsupported: log and ignore.
    IgnoreRequest,
    /// Decode the payload as a redraw batch and dispatch each event in order.
    DecodeRedraw,
    /// Decode the payload as extension events, skipping malformed elements.
    DecodeExtension,
    /// Any other notification: log and ignore.
    IgnoreNotification,
}

/// Route one inbound message. `ext_channel` names the custom extension
/// notification this client listens on besides `redraw`.
pub fn classify_message(msg: &InboundMessage, ext_channel: &str) -> (a: MessageAction)
    ensures
        a == (match *msg {
            InboundMessage::Response { msgid } => MessageAction::DeliverResponse { msgid },
            InboundMessage::Request { .. } => MessageAction::IgnoreRequest,
            InboundMessage::Notification { ref method } => if method@ == "redraw"@ {
                MessageAction::DecodeRedraw
            } else if method@ == ext_channel@ {
                MessageAction::DecodeExtension
            } else {
                MessageAction::IgnoreNotification
            },
        }),
{
    match msg {
        InboundMessage::Response { msgid } => MessageAction::DeliverResponse { msgid: *msgid },
        InboundMessage::Request { .. } => MessageAction::IgnoreRequest,
        InboundMessage::Notification { method } => {
            if str_eq(method.as_str(), "redraw") {
                MessageAction::DecodeRedraw
            } else if str_eq(method.as_str(), ext_channel) {
                MessageAction::DecodeExtension
            } else {
                MessageAction::IgnoreNotification
            }
        },
    }
}

/// The registry of outstanding outbound calls, keyed by call id. The issuer
/// registers an id before sending; the response handler resolves it. A
/// response nothing matches is a desync sign, but replies may race teardown,
/// so resolving is best-effort: the caller logs a miss and goes on.
pub struct PendingCalls {
    pub ids: Vec<u64>,
}

impl PendingCalls {
    /// Call ids count up, so no id is ever outstanding twice.
    pub open spec fn wf(self) -> bool {
        forall|i: int, j: int| 0 <= i < j < self.ids@.len() ==> self.ids@[i] != self.ids@[j]
    }

    pub open spec fn spec_outstanding(self, id: u64) -> bool {
        self.ids@.contains(id)
    }

    pub fn new() -> (p: PendingCalls)
        ensures
            p.wf(),
            forall|id: u64| !(#[trigger] p.spec_outstanding(id)),
    {
        let p = PendingCalls { ids: Vec::new() };
        p
    }

    /// Note an issued call, before its reply can possibly arrive.
    pub fn register(&mut self, id: u64)
        requires
            old(self).wf(),
            !old(self).spec_outstanding(id),
        ensures
            final(self).wf(),
            final(self).spec_outstanding(id),
            forall|x: u64|
                x != id ==> #[trigger] final(self).spec_outstanding(x) == old(
                    self,
                ).spec_outstanding(x),
    {
        self.ids.push(id);
        proof {
            assert(self.ids@.last() == id);
            assert forall|x: u64|
                x != id implies #[trigger] self.spec_outstanding(x) == old(self).spec_outstanding(
                x,
            ) by {
                if old(self).spec_outstanding(x) {
                    let w = choose|w: int| 0 <= w < old(self).ids@.len() && old(self).ids@[w] == x;
                    assert(self.ids@[w] == x);
                }
                if self.spec_outstanding(x) {
                    let w = choose|w: int| 0 <= w < self.ids@.len() && self.ids@[w] == x;
                    assert(w < old(self).ids@.len());
                    assert(old(self).ids@[w] == x);
                }
            }
        }
    }

    /// A response arrived: resolve its call id. `false` means no call was
    /// outstanding under that id; the caller logs it and goes on.
    pub fn resolve(&mut self, id: u64) -> (found: bool)
        requires
            old(self).wf(),
        ensures
            final(self).wf(),
            found == old(self).spec_outstanding(id),
            !found ==> *final(self) == *old(self),
            found ==> !final(self).spec_outstanding(id) && forall|x: u64|
                x != id ==> #[trigger] final(self).spec_outstanding(x) == old(
                    self,
                ).spec_outstanding(x),
    {
        let mut i: usize = 0;
        while i < self.ids.len()
            invariant
                i <= self.ids@.len(),
                *self == *old(self),
                forall|j: int| 0 <= j < i ==> old(self).ids@[j] != id,
            decreases self.ids@.len() - i,
        {
            if self.ids[i] == id {
                self.ids.remove(i);
                proof {
                    let pre = old(self).ids@;
                    assert(pre[i as int] == id);
                    assert(pre.contains(id));
                    assert forall|x: u64|
                        x != id implies #[trigger] self.spec_outstanding(x) == old(
                        self,
                    ).spec_outstanding(x) by {
                        if old(self).spec_outstanding(x) {
                            let w = choose|w: int| 0 <= w < pre.len() && pre[w] == x;
                            if w < i {
                                assert(self.ids@[w] == x);
                            } else {
                                assert(self.ids@[w - 1] == x);
                            }
                        }
                        if self.spec_outstanding(x) {
                            let w = choose|w: int| 0 <= w < self.ids@.len() && self.ids@[w] == x;
                            if w < i {
                                assert(pre[w] == x);
                            } else {
                                assert(pre[w + 1] == x);
                            }
                        }
                    }
                    assert(!self.spec_outstanding(id)) by {
                        if self.spec_outstanding(id) {
                            let w = choose|w: int| 0 <= w < self.ids@.len() && self.ids@[w] == id;
                            if w < i {
                                assert(pre[w] == id && pre[i as int] == id);
                            } else {
                                assert(pre[w + 1] == id && pre[i as int] == id);
                            }
                        }
                    }
                }
                return true;
            }
            i = i + 1;
        }
        proof {
            if old(self).spec_outstanding(id) {
                let w = choose|w: int| 0 <= w < self.ids@.len() && self.ids@[w] == id;
                assert(old(self).ids@[w] != id);
            }
        }
        false
    }
}

/// The calls this client issues to the editor.
#[derive(Clone, Copy, PartialEq, Eq, Debug)]
pub enum OutboundCall {
    SetClientInfo,
    UiAttach,
    Input,
    TryResizeGrid,
    Echo,
}

/// Whether a failed reply ends the session. The session cannot continue
/// meaningfully past a failed attach, input or resize; the rest is
/// best-effort and only logged.
pub fn call_failure_is_fatal(c: &OutboundCall) -> (r: bool)
    ensures
        r == (c is UiAttach || c is Input || c is TryResizeGrid),
{
    match c {
        OutboundCall::UiAttach => true,
        OutboundCall::Input => true,
        OutboundCall::TryResizeGrid => true,
        OutboundCall::SetClientInfo => false,
        OutboundCall::Echo => false,
    }
}

/// Where a decode can fail.
#[derive(Clone, Copy, PartialEq, Eq, Debug)]
pub enum DecodeFailure {
    /// The outer message envelope: the connection is unusable past it.
    Envelope,
    /// A redraw payload: grid state would be undefined.
    RedrawPayload,
    /// One element of an extension-event array: skip that element only.
    ExtensionElement,
}

/// Whether a decode failure ends the session.
pub fn decode_failure_is_fatal(f: &DecodeFailure) -> (r: bool)
    ensures
        r == !(f is ExtensionElement),
{
    match f {
        DecodeFailure::Envelope => true,
        DecodeFailure::RedrawPayload => true,
        DecodeFailure::ExtensionElement => false,
    }
}

/// The option flags of the attach call: this client drives the line-grid,
/// multigrid protocol in RGB color, and leaves popup menu, tab line and
/// command line drawn by the editor's own grids.
#[derive(Clone, Copy, PartialEq, Eq, Debug)]
pub struct UiOptions {
    pub rgb: bool,
    pub ext_linegrid: bool,
    pub ext_multigrid: bool,
    pub ext_popupmenu: bool,
    pub ext_tabline: bool,
    pub ext_cmdline: bool,
}

pub fn attach_options() -> (o: UiOptions)
    ensures
        o.rgb,
        o.ext_linegrid,
        o.ext_multigrid,
        !o.ext_popupmenu,
        !o.ext_tabline,
        !o.ext_cmdline,
{
    UiOptions {
        rgb: true,
        ext_linegrid: true,
        ext_multigrid: true,
        ext_popupmenu: false,
        ext_tabline: false,
        ext_cmdline: false,
    }
}

} // verus!
