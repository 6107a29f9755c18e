//! The webhook receiver's per-request decision.
//!
//! The push delivery mode binds an HTTP listener at a caller-chosen address
//! and a single path. Each inbound POST to that path is read, decoded as an
//! update and handed to the caller's handler; the handler's outcome is never
//! surfaced in the HTTP response. Once the body has been read and handed
//! off, the receiver acknowledges with the configured success status — also
//! when the body is malformed, so that one bad request can never take the
//! listener down or disturb later requests. Requests to any other path or
//! with any other method are turned away without invoking the handler.

use vstd::prelude::*;

use crate::update::{spec_decode_update, RawUpdate, Update};

verus! {

/// Status returned for a request whose path is not the bound one.
pub const STATUS_NOT_FOUND: u16 = 404;

/// Status returned for a request with a method other than POST.
pub const STATUS_METHOD_NOT_ALLOWED: u16 = 405;

/// The method of an inbound HTTP request, as far as the receiver cares:
/// updates arrive only by POST.
#[derive(Clone, Copy, Debug, PartialEq, Eq, Structural)]
pub enum InboundMethod {
    /// An HTTP POST request.
    Post,
    /// Any other HTTP method.
    Other,
}

/// What the receiver is bound to: the single routed path and the success
/// status it acknowledges accepted requests with.
#[derive(Clone, Debug, PartialEq)]
pub struct WebhookBinding {
    /// The single path updates are accepted on.
    pub path: String,
    /// The success status returned once a body has been read and handed off.
    pub ack_status: u16,
}

impl WebhookBinding {
    /// A binding is well formed when its path is non-empty and its
    /// acknowledgement status lies in the success range.
    pub open spec fn wf(self) -> bool {
        &&& self.path@.len() > 0
        &&& 200 <= self.ack_status < 300
    }

    /// Creates a binding for the given path, acknowledging with the given
    /// success status.
    pub fn new(path: String, ack_status: u16) -> (r: Self)
        requires
            path@.len() > 0,
            200 <= ack_status < 300,
        ensures
            r == (WebhookBinding { path, ack_status }),
            r.wf(),
    {
        WebhookBinding { path, ack_status }
    }
}

/// The receiver's answer to one inbound request: the HTTP status to write,
/// and the decoded update to hand to the handler, when there is one.
#[derive(Clone, Debug, PartialEq)]
pub struct WebhookReply {
    /// The HTTP status to answer with.
    pub status: u16,
    /// The update to dispatch to the caller's handler; nothing when the
    /// request was turned away or its body did not decode.
    pub dispatch: Option<Update>,
}

/// Decides the answer to one inbound request.
///
/// `body` is the request body after the plain field-for-field mapping from
/// its wire form, or nothing when the body could not be read as an update
/// envelope at all. A POST to the bound path is always acknowledged with the
/// configured success status, whether or not its body decodes: a malformed
/// body is logged by the embedding and must never terminate the listener.
/// Any other method is refused as not allowed, any other path as not found,
/// in both cases without dispatching anything.
pub fn handle_webhook_request(
    binding: &WebhookBinding,
    method: InboundMethod,
    path: &String,
    body: Option<RawUpdate>,
) -> (r: WebhookReply)
    requires
        binding.wf(),
    ensures
        method is Other ==> r == (WebhookReply {
            status: STATUS_METHOD_NOT_ALLOWED,
            dispatch: None,
        }),
        method is Post && path@ != binding.path@ ==> r == (WebhookReply {
            status: STATUS_NOT_FOUND,
            dispatch: None,
        }),
        method is Post && path@ == binding.path@ ==> {
            &&& r.status == binding.ack_status
            &&& r.dispatch == (match body {
                Some(raw) => spec_decode_update(raw),
                None => None::<Update>,
            })
        },
{
    match method {
        InboundMethod::Other => WebhookReply { status: STATUS_METHOD_NOT_ALLOWED, dispatch: None },
        InboundMethod::Post => {
            if !path.eq(&binding.path) {
                WebhookReply { status: STATUS_NOT_FOUND, dispatch: None }
            } else {
                let dispatch = match body {
                    Some(raw) => match crate::update::decode_update(raw) {
                        Ok(update) => Some(update),
                        Err(_) => None,
                    },
                    None => None,
                };
                WebhookReply { status: binding.ack_status, dispatch }
            }
        },
    }
}

} // verus!
