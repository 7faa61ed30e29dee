//! The stdio server's decision core: which parsed lines dispatch to the
//! handler, how a handler outcome is encoded on stdout, and the per-stream
//! notification-link machine that emits each stream's items and exactly one
//! end-of-stream sentinel.

use vstd::prelude::*;

use serde_json::Value;

use crate::error::ProtocolError;
use crate::json::{u64_of_value, u64_value};
use crate::jsonrpc::{
    spec_code_number, spec_code_of_error_type, spec_result_params_value, JsonRpcMessage,
    JsonRpcNotification, JsonRpcRequest, JsonRpcResponse, JsonRpcResponseError, JSON_RPC_VERSION,
};
use crate::stdio::{dec_str_of, id_method_string, u64_of_dec};
use crate::ServiceResponse;

verus! {

/// Only requests are served: the request a parsed message holds, if it is
/// one. Responses and notifications from the peer are dropped.
pub fn request_of_message(message: JsonRpcMessage) -> (r: Option<JsonRpcRequest>)
    ensures
        match message {
            JsonRpcMessage::Request(request) => r == Some(request),
            _ => r == None::<JsonRpcRequest>,
        },
{
    match message {
        JsonRpcMessage::Request(request) => Some(request),
        _ => None,
    }
}

/// What the server does with one converted request: dispatch it to the
/// handler under its id, or drop the line — the stdio server sends no reply
/// for a request it cannot serve, and the peer times out.
pub enum ServerRouting<Req> {
    /// Hand the request to the handler; its outcome answers under `id`.
    Dispatch { request: Req, id: u64 },
    /// The converter rejected the request: log and drop.
    ConversionFailed(ProtocolError),
    /// The converter does not recognise the method: log and drop.
    UnknownMethod,
}

/// Turns the user converter's verdict on an incoming request into the
/// server's routing: a recognised request dispatches, everything else is
/// dropped without a reply.
pub fn route_request_conversion<Req>(
    conversion: Result<Option<Req>, ProtocolError>,
    id: u64,
) -> (r: ServerRouting<Req>)
    ensures
        match conversion {
            Ok(Some(request)) => r == (ServerRouting::Dispatch { request, id }),
            Ok(None) => r == ServerRouting::UnknownMethod::<Req>,
            Err(e) => r == ServerRouting::ConversionFailed::<Req>(e),
        },
{
    match conversion {
        Ok(Some(request)) => ServerRouting::Dispatch { request, id },
        Ok(None) => ServerRouting::UnknownMethod,
        Err(e) => ServerRouting::ConversionFailed(e),
    }
}

/// How a handler outcome reaches the peer: a single response to convert and
/// write, a stream to register under its id, or an error response, already
/// encoded with the call's id and the error's category code.
pub enum ServiceOutcome<Resp, S> {
    Single(Resp),
    Stream { id: u64, stream: S },
    Error(JsonRpcResponse),
}

/// Splits a handler outcome: a single response is written back, a stream is
/// registered for notification delivery, and a handler error is encoded as
/// an error response under the call's id.
pub fn split_service_result<Resp, S>(
    result: Result<ServiceResponse<Resp, S>, ProtocolError>,
    id: u64,
) -> (r: ServiceOutcome<Resp, S>)
    ensures
        match result {
            Ok(ServiceResponse::Single(resp)) => r == ServiceOutcome::Single::<Resp, S>(resp),
            Ok(ServiceResponse::Multiple(stream)) => r == (ServiceOutcome::Stream::<Resp, S> {
                id,
                stream,
            }),
            Err(e) => {
                &&& r matches ServiceOutcome::Error(resp)
                &&& u64_of_value(resp.id) == Some(id)
                &&& resp.result == None::<Value>
                &&& resp.error is Some
                &&& resp.error->Some_0.code == spec_code_number(
                    spec_code_of_error_type(e.error_type),
                )
                &&& resp.error->Some_0.message == e.error
            },
        },
{
    match result {
        Ok(ServiceResponse::Single(resp)) => ServiceOutcome::Single(resp),
        Ok(ServiceResponse::Multiple(stream)) => ServiceOutcome::Stream { id, stream },
        Err(e) => ServiceOutcome::Error(JsonRpcResponse::new(Err(e), u64_value(id))),
    }
}

/// The end-of-stream sentinel for a stream: a notification whose method is
/// the stringified id and whose params are absent — null on the wire.
pub fn end_of_stream_message(id: u64) -> (r: JsonRpcNotification)
    ensures
        r.method@ == dec_str_of(id),
        u64_of_dec(r.method@) == Some(id),
        r.params == None::<Value>,
        r.jsonrpc_version@ == JSON_RPC_VERSION@,
{
    JsonRpcNotification::new(id_method_string(id), None)
}

/// A failed stream item: a notification for the stream's id whose params
/// carry only the error, under its category's wire code and its text.
pub fn stream_error_notification(e: ProtocolError, id: u64) -> (r: JsonRpcNotification)
    ensures
        r.method@ == dec_str_of(id),
        u64_of_dec(r.method@) == Some(id),
        r.jsonrpc_version@ == JSON_RPC_VERSION@,
        r.params matches Some(pv) && spec_result_params_value(
            pv,
            None::<Value>,
            Some(
                (JsonRpcResponseError {
                    code: spec_code_number(spec_code_of_error_type(e.error_type)),
                    message: e.error,
                    data: None,
                }),
            ),
        ),
{
    JsonRpcNotification::new_with_result_params(Err(e), id_method_string(id))
}

/// The server-side record of one streaming call: its correlation id and
/// whether its end-of-stream sentinel has been emitted.
pub struct NotificationLinkState {
    pub id: u64,
    pub is_complete: bool,
}

/// What the underlying handler stream yields at one poll.
pub enum LinkUpstream<Resp> {
    /// Nothing ready yet.
    Pending,
    /// The next stream item.
    Item(Result<Resp, ProtocolError>),
    /// The underlying stream is exhausted.
    End,
}

/// What the link emits for one poll of its underlying stream.
pub enum LinkStep<Resp> {
    /// Nothing to write.
    Pending,
    /// Write this item as a notification for the link's id.
    Emit(Result<Resp, ProtocolError>),
    /// Write the end-of-stream sentinel for the link's id.
    Sentinel,
    /// The sentinel was already emitted: the link is spent.
    Finished,
}

/// The link state after one poll: seeing the underlying stream end marks
/// the link complete.
pub open spec fn link_step_state<Resp>(
    st: NotificationLinkState,
    upstream: LinkUpstream<Resp>,
) -> NotificationLinkState {
    match upstream {
        LinkUpstream::End => NotificationLinkState { is_complete: true, ..st },
        _ => st,
    }
}

/// What one poll emits: items pass through; the first end of the underlying
/// stream emits the sentinel; after that the link is finished.
pub open spec fn link_step_out<Resp>(
    st: NotificationLinkState,
    upstream: LinkUpstream<Resp>,
) -> LinkStep<Resp> {
    match upstream {
        LinkUpstream::Pending => LinkStep::Pending,
        LinkUpstream::Item(item) => LinkStep::Emit(item),
        LinkUpstream::End => if st.is_complete {
            LinkStep::Finished
        } else {
            LinkStep::Sentinel
        },
    }
}

impl NotificationLinkState {
    /// A fresh link for one streaming call: sentinel not yet emitted.
    pub fn new(id: u64) -> (r: Self)
        ensures
            r.id == id,
            !r.is_complete,
    {
        NotificationLinkState { id, is_complete: false }
    }

    /// Advances the link by one poll of its underlying stream and says what
    /// to emit: items pass through in order; the first exhaustion emits the
    /// end-of-stream sentinel, every later one is spent.
    pub fn poll_step<Resp>(&mut self, upstream: LinkUpstream<Resp>) -> (r: LinkStep<Resp>)
        ensures
            final(self).id == old(self).id,
            final(self).is_complete == link_step_state(*old(self), upstream).is_complete,
            r == link_step_out::<Resp>(*old(self), upstream),
    {
        match upstream {
            LinkUpstream::Pending => LinkStep::Pending,
            LinkUpstream::Item(item) => LinkStep::Emit(item),
            LinkUpstream::End => {
                if self.is_complete {
                    LinkStep::Finished
                } else {
                    self.is_complete = true;
                    LinkStep::Sentinel
                }
            },
        }
    }
}

/// The outputs of a sequence of polls.
pub open spec fn link_run_outs<Resp>(
    st: NotificationLinkState,
    ups: Seq<LinkUpstream<Resp>>,
) -> Seq<LinkStep<Resp>>
    decreases ups.len(),
{
    if ups.len() == 0 {
        Seq::empty()
    } else {
        seq![link_step_out(st, ups[0])] + link_run_outs(link_step_state(st, ups[0]), ups.drop_first())
    }
}

/// The number of sentinels in a sequence of link outputs.
pub open spec fn count_sentinels<Resp>(outs: Seq<LinkStep<Resp>>) -> int
    decreases outs.len(),
{
    if outs.len() == 0 {
        0
    } else {
        (if outs[0] is Sentinel {
            1int
        } else {
            0int
        }) + count_sentinels(outs.drop_first())
    }
}

/// Law (stream termination, server side): across any sequence of polls, a
/// link emits the end-of-stream sentinel exactly once — once per exhaustion
/// of the underlying stream, never again after the first, and never before
/// the stream ends.
pub proof fn lemma_sentinel_once<Resp>(
    st: NotificationLinkState,
    ups: Seq<LinkUpstream<Resp>>,
)
    ensures
        st.is_complete ==> count_sentinels(link_run_outs(st, ups)) == 0,
        count_sentinels(link_run_outs(st, ups)) <= 1,
        !st.is_complete && (exists|j: int|
            0 <= j < ups.len() && ups[j] is End) ==> count_sentinels(link_run_outs(st, ups)) == 1,
        (forall|j: int| 0 <= j < ups.len() ==> !(#[trigger] ups[j] is End)) ==> count_sentinels(
            link_run_outs(st, ups),
        ) == 0,
    decreases ups.len(),
{
    if ups.len() > 0 {
        let st1 = link_step_state(st, ups[0]);
        lemma_sentinel_once(st1, ups.drop_first());
        assert(link_run_outs(st, ups).drop_first() =~= link_run_outs(st1, ups.drop_first()));
        if !st.is_complete && (exists|j: int| 0 <= j < ups.len() && ups[j] is End) {
            if !(ups[0] is End) {
                let j = choose|j: int| 0 <= j < ups.len() && ups[j] is End;
                assert(ups.drop_first()[j - 1] is End);
            }
        }
    }
}

} // verus!
