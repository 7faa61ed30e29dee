//! The stdio client's correlation engine: assigns monotonically increasing
//! ids to outgoing requests and routes incoming responses and notifications
//! back to the call they answer. An id lives in at most one of two tables:
//! `pending` (a single reply is awaited) or `streams` (a notification stream
//! is open). The first notification for a pending id migrates the entry from
//! `pending` to `streams`; a notification without parameters closes the
//! stream.
//!
//! The engine is the decision core of the client's communication task: the
//! task that owns the child process's pipes performs the channel sends the
//! returned routing calls for.

use vstd::prelude::*;

use std::collections::HashMap;

verus! {

broadcast use vstd::std_specs::hash::group_hash_axioms;

/// A pure snapshot of the correlation state: the last assigned id and the
/// two correlation tables, keyed by id and holding the originating request.
#[verifier::ext_equal]
pub struct CorrelationModel<Req> {
    pub last: u64,
    pub pending: Map<u64, Req>,
    pub streams: Map<u64, Req>,
}

/// The state a fresh client starts in: no id assigned, nothing correlated.
pub open spec fn init_model<Req>() -> CorrelationModel<Req> {
    CorrelationModel { last: 0, pending: Map::empty(), streams: Map::empty() }
}

/// Every correlated id was assigned (positive, no greater than the last
/// assigned id), and an id is pending or streaming, never both.
pub open spec fn wf_model<Req>(s: CorrelationModel<Req>) -> bool {
    &&& forall|id: u64| #[trigger] s.pending.contains_key(id) ==> 1 <= id <= s.last
    &&& forall|id: u64| #[trigger] s.streams.contains_key(id) ==> 1 <= id <= s.last
    &&& forall|id: u64|
        !(#[trigger] s.pending.contains_key(id) && #[trigger] s.streams.contains_key(id))
}

/// One thing the communication task witnesses: a caller submitting a
/// request, or a parsed reply arriving on the child's stdout. A notification
/// whose params are absent or null arrives with `has_params` false.
pub enum ClientEvent<Req> {
    Submit(Req),
    Response { id: u64 },
    Notification { id: u64, has_params: bool },
}

/// What one event obliges the communication task to do.
pub enum ClientEffect<Req> {
    /// The submitted request was written to the child under this fresh id.
    Assigned { id: u64 },
    /// The awaited single reply for `id` arrived: deliver it to the caller
    /// that submitted `request`.
    Resolved { id: u64, request: Req },
    /// A response for an id that no caller awaits: drop it.
    ResponseIgnored { id: u64 },
    /// The first notification for a pending id arrived: hand the caller a
    /// stream, then forward this notification on it if it carries params
    /// (an empty-params first notification closes the stream at once).
    StreamOpened { id: u64, first_has_params: bool },
    /// A further stream item: forward it on the open stream.
    Forwarded { id: u64 },
    /// The end-of-stream sentinel: close the stream.
    StreamClosed { id: u64 },
    /// A notification for an id with no open stream: drop it.
    NotificationIgnored { id: u64 },
}

/// Whether the machine can take this event without exhausting the id space.
pub open spec fn step_allowed<Req>(s: CorrelationModel<Req>, e: ClientEvent<Req>) -> bool {
    e is Submit ==> s.last < u64::MAX
}

/// The state after one event.
pub open spec fn step_state<Req>(
    s: CorrelationModel<Req>,
    e: ClientEvent<Req>,
) -> CorrelationModel<Req> {
    match e {
        ClientEvent::Submit(request) => {
            let id = (s.last + 1) as u64;
            CorrelationModel { last: id, pending: s.pending.insert(id, request), ..s }
        },
        ClientEvent::Response { id } => {
            if s.pending.contains_key(id) {
                CorrelationModel { pending: s.pending.remove(id), ..s }
            } else {
                s
            }
        },
        ClientEvent::Notification { id, has_params } => {
            if s.pending.contains_key(id) {
                if has_params {
                    CorrelationModel {
                        pending: s.pending.remove(id),
                        streams: s.streams.insert(id, s.pending[id]),
                        ..s
                    }
                } else {
                    CorrelationModel { pending: s.pending.remove(id), ..s }
                }
            } else if s.streams.contains_key(id) {
                if has_params {
                    s
                } else {
                    CorrelationModel { streams: s.streams.remove(id), ..s }
                }
            } else {
                s
            }
        },
    }
}

/// The effect one event produces.
pub open spec fn step_effect<Req>(
    s: CorrelationModel<Req>,
    e: ClientEvent<Req>,
) -> ClientEffect<Req> {
    match e {
        ClientEvent::Submit(request) => ClientEffect::Assigned { id: (s.last + 1) as u64 },
        ClientEvent::Response { id } => {
            if s.pending.contains_key(id) {
                ClientEffect::Resolved { id, request: s.pending[id] }
            } else {
                ClientEffect::ResponseIgnored { id }
            }
        },
        ClientEvent::Notification { id, has_params } => {
            if s.pending.contains_key(id) {
                ClientEffect::StreamOpened { id, first_has_params: has_params }
            } else if s.streams.contains_key(id) {
                if has_params {
                    ClientEffect::Forwarded { id }
                } else {
                    ClientEffect::StreamClosed { id }
                }
            } else {
                ClientEffect::NotificationIgnored { id }
            }
        },
    }
}

/// How the client routes an incoming notification, as decided by
/// [`ClientCorrelation::route_notification`].
#[derive(Clone, Copy, Debug, PartialEq, Eq, Structural)]
pub enum NotificationRouting {
    /// First notification for a pending id, carrying params: hand the caller
    /// a stream and forward this item on it.
    OpenAndForward,
    /// First notification for a pending id, without params: hand the caller
    /// a stream that ends at once.
    OpenAndClose,
    /// A further item for an open stream: forward it.
    Forward,
    /// The end-of-stream sentinel: close the stream.
    Close,
    /// No call awaits this id: drop the notification.
    Ignore,
}

/// The effect a routing decision stands for.
pub open spec fn notification_effect<Req>(routing: NotificationRouting, id: u64) -> ClientEffect<
    Req,
> {
    match routing {
        NotificationRouting::OpenAndForward => ClientEffect::StreamOpened {
            id,
            first_has_params: true,
        },
        NotificationRouting::OpenAndClose => ClientEffect::StreamOpened {
            id,
            first_has_params: false,
        },
        NotificationRouting::Forward => ClientEffect::Forwarded { id },
        NotificationRouting::Close => ClientEffect::StreamClosed { id },
        NotificationRouting::Ignore => ClientEffect::NotificationIgnored { id },
    }
}

/// The correlation state of one stdio client: the last assigned id, the
/// calls awaiting a single reply, and the open notification streams, each
/// holding the originating request.
pub struct ClientCorrelation<Req> {
    last_req_id: u64,
    pending: HashMap<u64, Req>,
    streams: HashMap<u64, Req>,
}

impl<Req> ClientCorrelation<Req> {
    /// The pure snapshot this state stands for.
    pub closed spec fn model(&self) -> CorrelationModel<Req> {
        CorrelationModel {
            last: self.last_req_id,
            pending: self.pending@,
            streams: self.streams@,
        }
    }

    /// A fresh engine: no id assigned, nothing correlated.
    pub fn new() -> (r: Self)
        ensures
            r.model() == init_model::<Req>(),
            wf_model(r.model()),
    {
        let r = ClientCorrelation {
            last_req_id: 0,
            pending: HashMap::new(),
            streams: HashMap::new(),
        };
        proof {
            assert(r.model() =~~= init_model::<Req>());
        }
        r
    }

    /// The last assigned id; the next submission gets the id after it.
    pub fn last_assigned(&self) -> (r: u64)
        ensures
            r == self.model().last,
    {
        self.last_req_id
    }

    /// Assigns the next id to a submitted request and records the call as
    /// pending. Ids start at 1 and increase by one per submission.
    pub fn submit(&mut self, request: Req) -> (id: u64)
        requires
            wf_model(old(self).model()),
            old(self).model().last < u64::MAX,
        ensures
            wf_model(final(self).model()),
            id == old(self).model().last + 1,
            final(self).model() == step_state(old(self).model(), ClientEvent::Submit(request)),
            step_effect(old(self).model(), ClientEvent::Submit(request)) == (
            ClientEffect::Assigned::<Req> { id }),
    {
        let id = self.last_req_id + 1;
        self.last_req_id = id;
        self.pending.insert(id, request);
        proof {
            assert(self.model() =~~= step_state(
                old(self).model(),
                ClientEvent::Submit(request),
            ));
        }
        id
    }

    /// Routes an incoming response: the pending call with this id, if one
    /// exists, is resolved and its originating request returned; a response
    /// for an unknown id returns nothing and changes nothing.
    pub fn route_response(&mut self, id: u64) -> (taken: Option<Req>)
        requires
            wf_model(old(self).model()),
        ensures
            wf_model(final(self).model()),
            final(self).model() == step_state(
                old(self).model(),
                ClientEvent::Response::<Req> { id },
            ),
            match taken {
                Some(request) => step_effect(old(self).model(), ClientEvent::Response::<Req> { id })
                    == (ClientEffect::Resolved { id, request }),
                None => step_effect(old(self).model(), ClientEvent::Response::<Req> { id }) == (
                ClientEffect::ResponseIgnored::<Req> { id }),
            },
    {
        let taken = self.pending.remove(&id);
        proof {
            if !old(self).model().pending.contains_key(id) {
                assert(old(self).pending@.remove(id) =~= old(self).pending@);
            }
            assert(self.model() =~~= step_state(
                old(self).model(),
                ClientEvent::Response::<Req> { id },
            ));
        }
        taken
    }

    /// Routes an incoming notification for the stream it belongs to. The
    /// first notification for a pending id migrates the call to an open
    /// stream; params carry an item to forward; absent params close the
    /// stream; an id in neither table is ignored.
    pub fn route_notification(&mut self, id: u64, has_params: bool) -> (routing:
        NotificationRouting)
        requires
            wf_model(old(self).model()),
        ensures
            wf_model(final(self).model()),
            final(self).model() == step_state(
                old(self).model(),
                ClientEvent::Notification::<Req> { id, has_params },
            ),
            notification_effect::<Req>(routing, id) == step_effect(
                old(self).model(),
                ClientEvent::Notification::<Req> { id, has_params },
            ),
    {
        let routing = match self.pending.remove(&id) {
            Some(request) => {
                if has_params {
                    self.streams.insert(id, request);
                    NotificationRouting::OpenAndForward
                } else {
                    NotificationRouting::OpenAndClose
                }
            },
            None => {
                if self.streams.contains_key(&id) {
                    if has_params {
                        NotificationRouting::Forward
                    } else {
                        self.streams.remove(&id);
                        NotificationRouting::Close
                    }
                } else {
                    NotificationRouting::Ignore
                }
            },
        };
        proof {
            if !old(self).model().pending.contains_key(id) {
                assert(old(self).pending@.remove(id) =~= old(self).pending@);
            }
            assert(self.model() =~~= step_state(
                old(self).model(),
                ClientEvent::Notification::<Req> { id, has_params },
            ));
        }
        routing
    }

    /// The originating request of the open stream with this id, if any;
    /// the communication task converts each forwarded item against it.
    pub fn stream_request(&self, id: u64) -> (r: Option<&Req>)
        ensures
            match r {
                Some(request) => self.model().streams.contains_key(id) && *request == self.model()
                    .streams[id],
                None => !self.model().streams.contains_key(id),
            },
    {
        self.streams.get(&id)
    }
}

} // verus!
