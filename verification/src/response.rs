//! The response parser: reads response text as XML and yields either the
//! expected success element (paired with the original text) or a
//! `RequestError`. Success is checked before any fault is looked for, and
//! every structural anomaly degrades to `InvalidResponse` carrying the
//! raw text.

use vstd::prelude::*;
use crate::errors::RequestError;
use crate::strings::{parse_u16, parse_u16_spec};
use crate::xml::{find_child, find_child_index, parse_xml, xml_doc, XmlNode};

verus! {

/// What one HTTP exchange came back with: response text, or a
/// transport-level failure described in text.
#[derive(Debug, Clone, PartialEq, Eq)]
pub enum TransportEvent {
    Reply(String),
    Failed(String),
}

/// The fault reading of a `Body` with no success element: the fault path
/// `Fault/detail/UPnPError` must carry textual `errorCode` (a decimal
/// `u16`) and `errorDescription` children.
pub open spec fn parse_fault_spec(text: String, body: XmlNode) -> Result<
    (String, XmlNode),
    RequestError,
> {
    match find_child(body.children@, "Fault"@) {
        None => Err(RequestError::InvalidResponse(text)),
        Some(fault) => match find_child(fault.children@, "detail"@) {
            None => Err(RequestError::InvalidResponse(text)),
            Some(detail) => match find_child(detail.children@, "UPnPError"@) {
                None => Err(RequestError::InvalidResponse(text)),
                Some(upnp) => match (
                    find_child(upnp.children@, "errorCode"@),
                    find_child(upnp.children@, "errorDescription"@),
                ) {
                    (Some(code_el), Some(desc_el)) => match (code_el.text, desc_el.text) {
                        (Some(ct), Some(dt)) => match parse_u16_spec(ct@) {
                            Some(code) => Err(RequestError::ErrorCode(code, dt)),
                            None => Err(RequestError::InvalidResponse(text)),
                        },
                        _ => Err(RequestError::InvalidResponse(text)),
                    },
                    _ => Err(RequestError::InvalidResponse(text)),
                },
            },
        },
    }
}

/// What parsing response text against an expected success-element name
/// yields: the success element if the `Body` holds one, else the fault
/// reading, else `InvalidResponse` with the text.
pub open spec fn parse_response_spec(text: String, ok: Seq<char>) -> Result<
    (String, XmlNode),
    RequestError,
> {
    match xml_doc(text@) {
        None => Err(RequestError::InvalidResponse(text)),
        Some(root) => match find_child(root.children@, "Body"@) {
            None => Err(RequestError::InvalidResponse(text)),
            Some(body) => match find_child(body.children@, ok) {
                Some(okn) => Ok((text, okn)),
                None => parse_fault_spec(text, body),
            },
        },
    }
}

/// The outcome of one transport exchange, as the action layer sees it.
pub open spec fn event_result(ev: TransportEvent, ok: Seq<char>) -> Result<
    (String, XmlNode),
    RequestError,
> {
    match ev {
        TransportEvent::Failed(msg) => Err(RequestError::TransportError(msg)),
        TransportEvent::Reply(text) => parse_response_spec(text, ok),
    }
}

/// Parses response text, looking for a success element named `ok`.
pub fn parse_response(text: String, ok: &str) -> (r: Result<(String, XmlNode), RequestError>)
    ensures
        r == parse_response_spec(text, ok@),
{
    let root = match parse_xml(text.as_str()) {
        Some(root) => root,
        None => {
            return Err(RequestError::InvalidResponse(text));
        },
    };
    let mut root = root;
    let bi = match find_child_index(&root.children, "Body") {
        Some(bi) => bi,
        None => {
            return Err(RequestError::InvalidResponse(text));
        },
    };
    let mut body = root.children.remove(bi);
    let ghost body0 = body;
    if let Some(oi) = find_child_index(&body.children, ok) {
        let okn = body.children.remove(oi);
        return Ok((text, okn));
    }
    let fi = match find_child_index(&body.children, "Fault") {
        Some(fi) => fi,
        None => {
            return Err(RequestError::InvalidResponse(text));
        },
    };
    let mut fault = body.children.remove(fi);
    let di = match find_child_index(&fault.children, "detail") {
        Some(di) => di,
        None => {
            return Err(RequestError::InvalidResponse(text));
        },
    };
    let mut detail = fault.children.remove(di);
    let ui = match find_child_index(&detail.children, "UPnPError") {
        Some(ui) => ui,
        None => {
            return Err(RequestError::InvalidResponse(text));
        },
    };
    let mut upnp = detail.children.remove(ui);
    let ghost upnp0 = upnp;
    let ci = match find_child_index(&upnp.children, "errorCode") {
        Some(ci) => ci,
        None => {
            return Err(RequestError::InvalidResponse(text));
        },
    };
    let di2 = match find_child_index(&upnp.children, "errorDescription") {
        Some(di2) => di2,
        None => {
            return Err(RequestError::InvalidResponse(text));
        },
    };
    proof {
        reveal_strlit("errorCode");
        reveal_strlit("errorDescription");
        assert("errorCode"@.len() != "errorDescription"@.len());
        assert(ci != di2);
    }
    let (code_el, desc_el) = if ci < di2 {
        let d = upnp.children.remove(di2);
        let c = upnp.children.remove(ci);
        proof {
            assert(c == upnp0.children@[ci as int]);
        }
        (c, d)
    } else {
        let c = upnp.children.remove(ci);
        let d = upnp.children.remove(di2);
        proof {
            assert(d == upnp0.children@[di2 as int]);
        }
        (c, d)
    };
    let ct = match code_el.text {
        Some(ct) => ct,
        None => {
            return Err(RequestError::InvalidResponse(text));
        },
    };
    let dt = match desc_el.text {
        Some(dt) => dt,
        None => {
            return Err(RequestError::InvalidResponse(text));
        },
    };
    match parse_u16(ct.as_str()) {
        Some(code) => Err(RequestError::ErrorCode(code, dt)),
        None => Err(RequestError::InvalidResponse(text)),
    }
}

/// Reads one transport outcome against an expected success-element name.
pub fn handle_event(ev: TransportEvent, ok: &str) -> (r: Result<(String, XmlNode), RequestError>)
    ensures
        r == event_result(ev, ok@),
{
    match ev {
        TransportEvent::Failed(msg) => Err(RequestError::TransportError(msg)),
        TransportEvent::Reply(text) => parse_response(text, ok),
    }
}

} // verus!
