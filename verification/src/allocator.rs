//! The any-port allocator: a sequential state machine that negotiates a
//! mapped external port around router capability differences and
//! transient port conflicts. Each step either hands the caller a request
//! to post, or finishes with the classified outcome. The caller performs
//! the exchange and feeds the outcome back, together with a fresh random
//! candidate port for the machine to use if it must try again.

use vstd::prelude::*;
use crate::envelope::{
    add_any_port_mapping_request, add_port_mapping_request, header_str, mapping_body,
    MappingRequest, SoapRequest,
};
use crate::errors::{AddAnyPortError, RequestError};
use crate::response::{event_result, handle_event, TransportEvent};
use crate::strings::{parse_u16, parse_u16_spec};
use crate::xml::{find_child, find_child_index, XmlNode};

verus! {

/// The candidate range ports are drawn from.
pub open spec fn port_in_range(p: u16) -> bool {
    32768 <= p < 65535
}

/// Where the allocator stands: which request is in flight.
#[derive(Debug, Clone, Copy, PartialEq, Eq, Structural)]
pub enum AllocPhase {
    /// `AddAnyPortMapping` was sent, hinting `candidate`.
    TryAnyPort { candidate: u16 },
    /// Fixed-port `AddPortMapping` was sent on `candidate`;
    /// `attempts_left` counts the in-flight attempt and those remaining.
    Fallback { attempts_left: u8, candidate: u16 },
    /// Fixed-port `AddPortMapping` was sent with the internal port as
    /// the external port, as the router demanded; terminal either way.
    SamePortRetry,
}

/// The allocator's state: the mapping being asked for, and the phase.
pub struct AnyPortAllocator {
    pub request: MappingRequest,
    pub phase: AllocPhase,
}

/// One step's outcome: a request to post (with the successor state), or
/// the final result.
pub enum AllocStep {
    Send(AnyPortAllocator, SoapRequest),
    Done(Result<u16, AddAnyPortError>),
}

/// What a step decides, stated without the rendered request text.
pub enum AllocDecision {
    Send(AllocPhase),
    Done(Result<u16, AddAnyPortError>),
}

impl AnyPortAllocator {
    /// A reachable state: the internal port was validated at the start,
    /// candidates lie in the drawing range, and the attempt budget is
    /// between one and twenty.
    pub open spec fn wf(self) -> bool {
        &&& self.request.local_addr.port != 0
        &&& match self.phase {
            AllocPhase::TryAnyPort { candidate } => port_in_range(candidate),
            AllocPhase::Fallback { attempts_left, candidate } => 1 <= attempts_left <= 20
                && port_in_range(candidate),
            AllocPhase::SamePortRetry => true,
        }
    }
}

/// The success-element name a phase's response is parsed against.
pub open spec fn phase_ok_name(phase: AllocPhase) -> Seq<char> {
    match phase {
        AllocPhase::TryAnyPort { .. } => "AddAnyPortMappingResponse"@,
        _ => "AddPortMappingResponse"@,
    }
}

/// The action a phase sends.
pub open spec fn phase_action(phase: AllocPhase) -> Seq<char> {
    match phase {
        AllocPhase::TryAnyPort { .. } => "AddAnyPortMapping"@,
        _ => "AddPortMapping"@,
    }
}

/// The external port a phase asks for: its candidate, or on the
/// same-port retry the caller's internal port.
pub open spec fn phase_external_port(req: MappingRequest, phase: AllocPhase) -> u16 {
    match phase {
        AllocPhase::TryAnyPort { candidate } => candidate,
        AllocPhase::Fallback { candidate, .. } => candidate,
        AllocPhase::SamePortRetry => req.local_addr.port,
    }
}

/// The body a phase's request carries.
pub open spec fn phase_body(req: MappingRequest, phase: AllocPhase) -> Seq<char> {
    mapping_body(
        phase_action(phase),
        req.protocol,
        phase_external_port(req, phase),
        req.local_addr,
        req.lease_duration,
        req.description@,
    )
}

/// The allocated port an `AddAnyPortMappingResponse` element reports.
pub open spec fn reserved_port_of(node: XmlNode) -> Option<u16> {
    match find_child(node.children@, "NewReservedPort"@) {
        Some(c) => match c.text {
            Some(t) => parse_u16_spec(t@),
            None => None,
        },
        None => None,
    }
}

/// What starting the allocator decides: an internal port of zero is
/// rejected before anything is sent; otherwise `AddAnyPortMapping` goes
/// out with the candidate.
pub open spec fn start_decision(req: MappingRequest, candidate: u16) -> AllocDecision {
    if req.local_addr.port == 0 {
        AllocDecision::Done(Err(AddAnyPortError::InternalPortZeroInvalid))
    } else {
        AllocDecision::Send(AllocPhase::TryAnyPort { candidate })
    }
}

/// The step relation of the allocator: the full table of §the protocol's
/// fault semantics, one row per phase and outcome.
pub open spec fn step_decision(
    a: AnyPortAllocator,
    ev: TransportEvent,
    next_candidate: u16,
) -> AllocDecision {
    let res = event_result(ev, phase_ok_name(a.phase));
    match a.phase {
        AllocPhase::TryAnyPort { candidate } => match res {
            Ok((text, node)) => match reserved_port_of(node) {
                Some(port) => AllocDecision::Done(Ok(port)),
                None => AllocDecision::Done(
                    Err(AddAnyPortError::RequestError(RequestError::InvalidResponse(text))),
                ),
            },
            Err(e) => match e {
                RequestError::ErrorCode(code, d) => if code == 401 {
                    AllocDecision::Send(
                        AllocPhase::Fallback { attempts_left: 20, candidate: next_candidate },
                    )
                } else if code == 605 {
                    AllocDecision::Done(Err(AddAnyPortError::DescriptionTooLong))
                } else if code == 606 {
                    AllocDecision::Done(Err(AddAnyPortError::ActionNotAuthorized))
                } else if code == 728 {
                    AllocDecision::Done(Err(AddAnyPortError::NoPortsAvailable))
                } else {
                    AllocDecision::Done(
                        Err(AddAnyPortError::RequestError(RequestError::ErrorCode(code, d))),
                    )
                },
                _ => AllocDecision::Done(Err(AddAnyPortError::RequestError(e))),
            },
        },
        AllocPhase::Fallback { attempts_left, candidate } => match res {
            Ok(_) => AllocDecision::Done(Ok(candidate)),
            Err(e) => match e {
                RequestError::ErrorCode(code, d) => if code == 605 {
                    AllocDecision::Done(Err(AddAnyPortError::DescriptionTooLong))
                } else if code == 606 {
                    AllocDecision::Done(Err(AddAnyPortError::ActionNotAuthorized))
                } else if code == 718 {
                    if attempts_left > 1 {
                        AllocDecision::Send(
                            AllocPhase::Fallback {
                                attempts_left: (attempts_left - 1) as u8,
                                candidate: next_candidate,
                            },
                        )
                    } else {
                        AllocDecision::Done(Err(AddAnyPortError::NoPortsAvailable))
                    }
                } else if code == 724 {
                    AllocDecision::Send(AllocPhase::SamePortRetry)
                } else if code == 725 {
                    AllocDecision::Done(Err(AddAnyPortError::OnlyPermanentLeasesSupported))
                } else {
                    AllocDecision::Done(
                        Err(AddAnyPortError::RequestError(RequestError::ErrorCode(code, d))),
                    )
                },
                _ => AllocDecision::Done(Err(AddAnyPortError::RequestError(e))),
            },
        },
        AllocPhase::SamePortRetry => match res {
            Ok(_) => AllocDecision::Done(Ok(a.request.local_addr.port)),
            Err(e) => match e {
                RequestError::ErrorCode(code, d) => if code == 606 {
                    AllocDecision::Done(Err(AddAnyPortError::ActionNotAuthorized))
                } else if code == 718 {
                    AllocDecision::Done(Err(AddAnyPortError::ExternalPortInUse))
                } else if code == 725 {
                    AllocDecision::Done(Err(AddAnyPortError::OnlyPermanentLeasesSupported))
                } else {
                    AllocDecision::Done(
                        Err(AddAnyPortError::RequestError(RequestError::ErrorCode(code, d))),
                    )
                },
                _ => AllocDecision::Done(Err(AddAnyPortError::RequestError(e))),
            },
        },
    }
}

/// Whether a step realizes a decision: same outcome, and for a send, the
/// successor keeps the mapping request and carries the phase's envelope.
pub open spec fn step_realizes(r: AllocStep, req: MappingRequest, d: AllocDecision) -> bool {
    match (r, d) {
        (AllocStep::Done(res), AllocDecision::Done(dres)) => res == dres,
        (AllocStep::Send(a, rq), AllocDecision::Send(phase)) => a.request == req && a.phase
            == phase && rq.header@ == header_str(phase_action(phase)) && rq.body@ == phase_body(
            req,
            phase,
        ),
        _ => false,
    }
}

/// Starts the any-port allocation: validates the internal port, then
/// renders the `AddAnyPortMapping` request for the candidate.
pub fn add_any_port(request: MappingRequest, candidate: u16) -> (r: AllocStep)
    requires
        port_in_range(candidate),
    ensures
        step_realizes(r, request, start_decision(request, candidate)),
        r matches AllocStep::Send(a, _) ==> a.wf(),
{
    if request.local_addr.port() == 0 {
        return AllocStep::Done(Err(AddAnyPortError::InternalPortZeroInvalid));
    }
    let rq = add_any_port_mapping_request(&request, candidate);
    AllocStep::Send(
        AnyPortAllocator { request, phase: AllocPhase::TryAnyPort { candidate } },
        rq,
    )
}

impl AnyPortAllocator {
    /// Feeds one transport outcome to the allocator. `next_candidate` is
    /// a freshly drawn port, used only if another attempt goes out.
    pub fn on_event(self, ev: TransportEvent, next_candidate: u16) -> (r: AllocStep)
        requires
            self.wf(),
            port_in_range(next_candidate),
        ensures
            step_realizes(r, self.request, step_decision(self, ev, next_candidate)),
            r matches AllocStep::Send(a, _) ==> a.wf(),
    {
        match self.phase {
            AllocPhase::TryAnyPort { candidate: _ } => {
                match handle_event(ev, "AddAnyPortMappingResponse") {
                    Ok((text, node)) => {
                        let mut node = node;
                        match find_child_index(&node.children, "NewReservedPort") {
                            Some(i) => {
                                let c = node.children.remove(i);
                                match c.text {
                                    Some(t) => match parse_u16(t.as_str()) {
                                        Some(port) => AllocStep::Done(Ok(port)),
                                        None => AllocStep::Done(
                                            Err(
                                                AddAnyPortError::RequestError(
                                                    RequestError::InvalidResponse(text),
                                                ),
                                            ),
                                        ),
                                    },
                                    None => AllocStep::Done(
                                        Err(
                                            AddAnyPortError::RequestError(
                                                RequestError::InvalidResponse(text),
                                            ),
                                        ),
                                    ),
                                }
                            },
                            None => AllocStep::Done(
                                Err(
                                    AddAnyPortError::RequestError(
                                        RequestError::InvalidResponse(text),
                                    ),
                                ),
                            ),
                        }
                    },
                    Err(e) => match e {
                        RequestError::ErrorCode(code, d) => {
                            if code == 401 {
                                let rq = add_port_mapping_request(&self.request, next_candidate);
                                AllocStep::Send(
                                    AnyPortAllocator {
                                        request: self.request,
                                        phase: AllocPhase::Fallback {
                                            attempts_left: 20,
                                            candidate: next_candidate,
                                        },
                                    },
                                    rq,
                                )
                            } else if code == 605 {
                                AllocStep::Done(Err(AddAnyPortError::DescriptionTooLong))
                            } else if code == 606 {
                                AllocStep::Done(Err(AddAnyPortError::ActionNotAuthorized))
                            } else if code == 728 {
                                AllocStep::Done(Err(AddAnyPortError::NoPortsAvailable))
                            } else {
                                AllocStep::Done(
                                    Err(
                                        AddAnyPortError::RequestError(
                                            RequestError::ErrorCode(code, d),
                                        ),
                                    ),
                                )
                            }
                        },
                        e => AllocStep::Done(Err(AddAnyPortError::RequestError(e))),
                    },
                }
            },
            AllocPhase::Fallback { attempts_left, candidate } => {
                match handle_event(ev, "AddPortMappingResponse") {
                    Ok(_) => AllocStep::Done(Ok(candidate)),
                    Err(e) => match e {
                        RequestError::ErrorCode(code, d) => {
                            if code == 605 {
                                AllocStep::Done(Err(AddAnyPortError::DescriptionTooLong))
                            } else if code == 606 {
                                AllocStep::Done(Err(AddAnyPortError::ActionNotAuthorized))
                            } else if code == 718 {
                                if attempts_left > 1 {
                                    let rq = add_port_mapping_request(
                                        &self.request,
                                        next_candidate,
                                    );
                                    AllocStep::Send(
                                        AnyPortAllocator {
                                            request: self.request,
                                            phase: AllocPhase::Fallback {
                                                attempts_left: attempts_left - 1,
                                                candidate: next_candidate,
                                            },
                                        },
                                        rq,
                                    )
                                } else {
                                    AllocStep::Done(Err(AddAnyPortError::NoPortsAvailable))
                                }
                            } else if code == 724 {
                                let rq = add_port_mapping_request(
                                    &self.request,
                                    self.request.local_addr.port(),
                                );
                                AllocStep::Send(
                                    AnyPortAllocator {
                                        request: self.request,
                                        phase: AllocPhase::SamePortRetry,
                                    },
                                    rq,
                                )
                            } else if code == 725 {
                                AllocStep::Done(
                                    Err(AddAnyPortError::OnlyPermanentLeasesSupported),
                                )
                            } else {
                                AllocStep::Done(
                                    Err(
                                        AddAnyPortError::RequestError(
                                            RequestError::ErrorCode(code, d),
                                        ),
                                    ),
                                )
                            }
                        },
                        e => AllocStep::Done(Err(AddAnyPortError::RequestError(e))),
                    },
                }
            },
            AllocPhase::SamePortRetry => {
                match handle_event(ev, "AddPortMappingResponse") {
                    Ok(_) => AllocStep::Done(Ok(self.request.local_addr.port())),
                    Err(e) => match e {
                        RequestError::ErrorCode(code, d) => {
                            if code == 606 {
                                AllocStep::Done(Err(AddAnyPortError::ActionNotAuthorized))
                            } else if code == 718 {
                                AllocStep::Done(Err(AddAnyPortError::ExternalPortInUse))
                            } else if code == 725 {
                                AllocStep::Done(
                                    Err(AddAnyPortError::OnlyPermanentLeasesSupported),
                                )
                            } else {
                                AllocStep::Done(
                                    Err(
                                        AddAnyPortError::RequestError(
                                            RequestError::ErrorCode(code, d),
                                        ),
                                    ),
                                )
                            }
                        },
                        e => AllocStep::Done(Err(AddAnyPortError::RequestError(e))),
                    },
                }
            },
        }
    }
}

/// Runs the decision relation over a sequence of outcomes and candidate
/// draws, one per step: the final result, or nothing if the outcomes run
/// out while a request is still in flight.
pub open spec fn drive(
    a: AnyPortAllocator,
    evs: Seq<TransportEvent>,
    cands: Seq<u16>,
) -> Option<Result<u16, AddAnyPortError>>
    decreases evs.len(),
{
    if evs.len() == 0 {
        None
    } else {
        match step_decision(a, evs[0], cands[0]) {
            AllocDecision::Done(res) => Some(res),
            AllocDecision::Send(phase) => drive(
                AnyPortAllocator { request: a.request, phase },
                evs.skip(1),
                cands.skip(1),
            ),
        }
    }
}

/// A fixed-port attempt that came back as fault 718: the one transient
/// outcome, answered by another draw.
pub open spec fn is_conflict(ev: TransportEvent) -> bool {
    event_result(ev, "AddPortMappingResponse"@) matches Err(RequestError::ErrorCode(code, _))
        && code == 718
}

/// A fixed-port attempt that came back as a parsed success element.
pub open spec fn is_mapping_success(ev: TransportEvent) -> bool {
    event_result(ev, "AddPortMappingResponse"@) matches Ok(_)
}

/// A router that does not know `AddAnyPortMapping` (fault 401) makes the
/// allocator fall back to fixed-port mapping, with the full budget of
/// twenty attempts and a fresh candidate.
pub proof fn lemma_unknown_action_falls_back(
    a: AnyPortAllocator,
    ev: TransportEvent,
    next_candidate: u16,
)
    requires
        a.phase matches AllocPhase::TryAnyPort { .. },
        event_result(ev, "AddAnyPortMappingResponse"@) matches Err(
            RequestError::ErrorCode(code, _),
        ) && code == 401,
    ensures
        step_decision(a, ev, next_candidate) == AllocDecision::Send(
            AllocPhase::Fallback { attempts_left: 20, candidate: next_candidate },
        ),
{
}

/// When every fixed-port attempt conflicts, the budget runs out and the
/// allocator reports `NoPortsAvailable`.
pub proof fn lemma_all_conflicts_exhaust_budget(
    a: AnyPortAllocator,
    evs: Seq<TransportEvent>,
    cands: Seq<u16>,
)
    requires
        a.phase matches AllocPhase::Fallback { attempts_left, .. } && evs.len() == attempts_left
            && attempts_left >= 1,
        cands.len() == evs.len(),
        forall|i: int| 0 <= i < evs.len() ==> is_conflict(evs[i]),
    ensures
        drive(a, evs, cands) == Some(Err::<u16, AddAnyPortError>(AddAnyPortError::NoPortsAvailable)),
    decreases evs.len(),
{
    let k = a.phase->Fallback_attempts_left;
    assert(is_conflict(evs[0]));
    if evs.len() > 1 {
        let a2 = AnyPortAllocator {
            request: a.request,
            phase: AllocPhase::Fallback { attempts_left: (k - 1) as u8, candidate: cands[0] },
        };
        assert(step_decision(a, evs[0], cands[0]) == AllocDecision::Send(a2.phase));
        assert(forall|i: int|
            0 <= i < evs.skip(1).len() ==> evs.skip(1)[i] == evs[i + 1] && is_conflict(
                evs.skip(1)[i],
            ));
        lemma_all_conflicts_exhaust_budget(a2, evs.skip(1), cands.skip(1));
        assert(drive(a, evs, cands) == drive(a2, evs.skip(1), cands.skip(1)));
    } else {
        assert(k == 1);
        assert(step_decision(a, evs[0], cands[0]) == AllocDecision::Done(
            Err::<u16, AddAnyPortError>(AddAnyPortError::NoPortsAvailable),
        ));
    }
}

/// When the first conflicts give way to a success, the allocator returns
/// the candidate of the succeeding attempt: with a budget of twenty and
/// nineteen conflicts, the twentieth candidate.
pub proof fn lemma_conflicts_then_success(
    a: AnyPortAllocator,
    evs: Seq<TransportEvent>,
    cands: Seq<u16>,
)
    requires
        a.phase matches AllocPhase::Fallback { attempts_left, candidate: c } && 1 <= evs.len()
            <= attempts_left,
        cands.len() == evs.len(),
        forall|i: int| 0 <= i < evs.len() - 1 ==> is_conflict(evs[i]),
        is_mapping_success(evs.last()),
    ensures
        ({
            let c0 = a.phase->Fallback_candidate;
            let winner: u16 = if evs.len() == 1 {
                c0
            } else {
                cands[evs.len() - 2]
            };
            drive(a, evs, cands) == Some(Ok::<u16, AddAnyPortError>(winner))
        }),
    decreases evs.len(),
{
    if evs.len() == 1 {
        assert(is_mapping_success(evs[0]));
    } else {
        assert(is_conflict(evs[0]));
        let a2 = AnyPortAllocator {
            request: a.request,
            phase: AllocPhase::Fallback {
                attempts_left: (a.phase->Fallback_attempts_left - 1) as u8,
                candidate: cands[0],
            },
        };
        assert(forall|i: int|
            0 <= i < evs.skip(1).len() - 1 ==> evs.skip(1)[i] == evs[i + 1] && is_conflict(
                evs.skip(1)[i],
            ));
        assert(evs.skip(1).last() == evs.last());
        lemma_conflicts_then_success(a2, evs.skip(1), cands.skip(1));
        if evs.len() == 2 {
            assert(drive(a, evs, cands) == Some(Ok::<u16, AddAnyPortError>(cands[0])));
        } else {
            assert(cands.skip(1)[evs.skip(1).len() - 2] == cands[evs.len() - 2]);
        }
    }
}

/// Fault 724 on a fixed-port attempt triggers the single same-port
/// retry, whatever the remaining budget: the retry reuses the caller's
/// internal port as the external port.
pub proof fn lemma_same_port_values_required(
    a: AnyPortAllocator,
    ev: TransportEvent,
    next_candidate: u16,
)
    requires
        a.phase matches AllocPhase::Fallback { .. },
        event_result(ev, "AddPortMappingResponse"@) matches Err(RequestError::ErrorCode(code, _))
            && code == 724,
    ensures
        step_decision(a, ev, next_candidate) == AllocDecision::Send(AllocPhase::SamePortRetry),
        phase_external_port(a.request, AllocPhase::SamePortRetry) == a.request.local_addr.port,
{
}

/// The same-port retry is terminal: whatever comes back, the allocator
/// finishes and never re-enters the attempt loop.
pub proof fn lemma_same_port_retry_is_terminal(
    a: AnyPortAllocator,
    ev: TransportEvent,
    next_candidate: u16,
)
    requires
        a.phase matches AllocPhase::SamePortRetry,
    ensures
        step_decision(a, ev, next_candidate) matches AllocDecision::Done(_),
{
}

} // verus!
