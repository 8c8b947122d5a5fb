//! The per-delivery step of the RPC consumer loop.
//!
//! The loop around this lives outside the library: it pulls one delivery at
//! a time and hands over the body bytes and the transport metadata. This
//! step decides everything else — protocol-fault handling, decode, dispatch,
//! and the framing of the correlated reply — and returns the action owed:
//! publish the reply to the named destination and then acknowledge, or leave
//! the delivery unacknowledged for redelivery.

use vstd::prelude::*;
use vstd::utf8::{valid_utf8, decode_utf8, encode_utf8_decode_utf8};
use crate::json::{
    utf8_decode, extract_cmd, extract_data_field, extract_dto_field, extract_data_is_object,
    extract_dto_present, extract_dto_is_object, extract_data_text, cmd_of, data_field_of,
    dto_field_of, data_is_object_of, dto_present_of, dto_is_object_of, data_text_of,
};
use crate::payload::{PayloadView, PayloadViewV, DtoView, DtoViewV};
use crate::service::{CountryController, Dispatch, DispatchV, controller_step};
use crate::render::{render_reply, reply_text};
use crate::store::table_wf;

verus! {

/// A reply ready to publish: the body, the destination taken from the
/// request's `reply_to`, and the request's own correlation token.
pub struct OutboundReply {
    pub routing_key: String,
    pub correlation_id: String,
    pub body: String,
}

/// Why a delivery gets no reply and stays unacknowledged.
pub enum Fault {
    /// `reply_to` or `correlation_id` is missing: nowhere to answer.
    MissingMetadata,
    /// The body is not UTF-8 text.
    InvalidBody,
    /// A recognized command whose required payload fields are missing or
    /// malformed: fatal for this delivery.
    MalformedPayload,
}

/// What one delivery demands: publish a reply and then acknowledge, or
/// leave the delivery unacknowledged.
pub enum Outcome {
    Reply(OutboundReply),
    Fault(Fault),
}

/// Everything any handler reads out of the envelope text's `data` value.
pub open spec fn payload_of_text(s: Seq<char>) -> PayloadViewV {
    PayloadViewV {
        is_object: data_is_object_of(s),
        name: data_field_of(s, "name"@),
        code: data_field_of(s, "code"@),
        dial_code: data_field_of(s, "dial_code"@),
        id: data_field_of(s, "id"@),
        dto: DtoViewV {
            present: dto_present_of(s),
            is_object: dto_is_object_of(s),
            name: dto_field_of(s, "name"@),
            code: dto_field_of(s, "code"@),
            dial_code: dto_field_of(s, "dial_code"@),
        },
        as_text: data_text_of(s),
    }
}

/// Read the payload out of the envelope text.
fn decode_payload(text: &str) -> (r: PayloadView)
    ensures
        r@ == payload_of_text(text@),
{
    PayloadView {
        is_object: extract_data_is_object(text),
        name: extract_data_field(text, "name"),
        code: extract_data_field(text, "code"),
        dial_code: extract_data_field(text, "dial_code"),
        id: extract_data_field(text, "id"),
        dto: DtoView {
            present: extract_dto_present(text),
            is_object: extract_dto_is_object(text),
            name: extract_dto_field(text, "name"),
            code: extract_dto_field(text, "code"),
            dial_code: extract_dto_field(text, "dial_code"),
        },
        as_text: extract_data_text(text),
    }
}

/// Handle one delivery: check the metadata, decode the body, dispatch, and
/// frame the correlated reply.
///
/// Missing metadata is exactly the missing-metadata fault; with metadata, a
/// non-UTF-8 body is exactly the invalid-body fault; and with metadata and a
/// UTF-8 body, the table and the outcome are exactly those of the dispatch
/// step on the decoded envelope — a reply carrying the step's rendered
/// answer, the inbound correlation token and the inbound reply destination,
/// or the fatal malformed-payload fault. Every fault leaves the table
/// untouched.
pub fn handle_delivery(
    ctrl: &mut CountryController,
    body: &[u8],
    reply_to: Option<String>,
    correlation_id: Option<String>,
    now: i64,
) -> (r: Outcome)
    requires
        table_wf(old(ctrl).table@),
        old(ctrl).table.next_id < i32::MAX,
    ensures
        table_wf(final(ctrl).table@),
        (reply_to is None || correlation_id is None) <==> (r matches Outcome::Fault(f)
            && f is MissingMetadata),
        reply_to is Some && correlation_id is Some ==> ((r matches Outcome::Fault(f)
            && f is InvalidBody) <==> !valid_utf8(body@)),
        r matches Outcome::Fault(f) ==> final(ctrl).table@ == old(ctrl).table@,
        r matches Outcome::Reply(o) ==> (reply_to matches Some(rt) && o.routing_key@ == rt@) && (
        correlation_id matches Some(cid) && o.correlation_id@ == cid@),
        reply_to is Some && correlation_id is Some && valid_utf8(body@) ==> ({
            let text = decode_utf8(body@);
            let step = controller_step(
                old(ctrl).table@,
                cmd_of(text),
                payload_of_text(text),
                now as int,
            );
            &&& final(ctrl).table@ == step.0
            &&& (step.1 is Malformed <==> (r matches Outcome::Fault(f) && f is MalformedPayload))
            &&& (step.1 matches DispatchV::Reply(rv) ==> (r matches Outcome::Reply(o) && o.body@
                == reply_text(rv)))
        }),
{
    let (rt, cid) = match (reply_to, correlation_id) {
        (Some(rt), Some(cid)) => (rt, cid),
        _ => {
            return Outcome::Fault(Fault::MissingMetadata);
        },
    };
    let text = match utf8_decode(body) {
        Some(t) => t,
        None => {
            return Outcome::Fault(Fault::InvalidBody);
        },
    };
    proof {
        encode_utf8_decode_utf8(text@);
        assert(text@ == decode_utf8(body@));
    }
    let cmd = extract_cmd(text.as_str());
    let payload = decode_payload(text.as_str());
    let d = ctrl.controller(cmd.as_str(), &payload, now);
    match d {
        Dispatch::Malformed => Outcome::Fault(Fault::MalformedPayload),
        Dispatch::Reply(rep) => {
            let out_body = render_reply(&rep);
            Outcome::Reply(OutboundReply { routing_key: rt, correlation_id: cid, body: out_body })
        },
    }
}

} // verus!
