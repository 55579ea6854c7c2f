//! The steps of the negotiation as a session takes them: the answers of the
//! passive side to the three requests, and the checks of the active side on
//! the three replies.
//!
//! Each step moves the session's negotiation on, or fails it for good. The
//! caller sends what a step hands back and, after a failure, tears the
//! session down.

use vstd::prelude::*;
use crate::endpoint::{EndPoint, EndPointModel};
use crate::message::{
    monitor_views, EndPointMessage, EndPointMessageView, EndPointNegotiateFinishedRequest,
    EndPointNegotiateFinishedRequestView, EndPointNegotiateFinishedResponse,
    EndPointNegotiateSelectMonitorRequest, EndPointNegotiateSelectMonitorResponse,
    EndPointNegotiateVisitDesktopParamsRequest, MonitorDescription,
};
use crate::negotiation::{
    accepts_params, answer_within_offer, negotiate_params, params_agreed, params_error,
    planned_capture, select_monitor, selected_monitor, CapturePlan, LocalCapabilities,
    NegotiationError, NegotiationEvent, NegotiationState,
};

verus! {

/// The session with its negotiation at `state` and all else as in `before`.
pub open spec fn at_state(before: EndPointModel, state: NegotiationState) -> EndPointModel {
    EndPointModel { negotiation: state, ..before }
}

impl EndPoint {
    /// The passive side's answer to the parameters on offer. The request is
    /// in turn only at the start of a session. On agreement the session waits
    /// for the display to be picked; otherwise the answer is `Error` and the
    /// negotiation has failed.
    pub fn handle_params_request(
        &mut self,
        request: &EndPointNegotiateVisitDesktopParamsRequest,
        local: &LocalCapabilities,
    ) -> (reply: EndPointMessage)
        ensures
            if old(self)@.negotiation == NegotiationState::Idle && params_error(request@, *local)
                is None {
                &&& reply matches EndPointMessage::NegotiateVisitDesktopParamsResponse(response)
                &&& params_agreed(request@, *local, response@)
                &&& final(self)@ == at_state(old(self)@, NegotiationState::SelectMonitor)
            } else {
                &&& reply == EndPointMessage::Error
                &&& final(self)@ == at_state(old(self)@, NegotiationState::Failed)
            },
    {
        if self.advance_negotiation(NegotiationEvent::Begin) == NegotiationState::Failed {
            return EndPointMessage::Error;
        }
        match negotiate_params(request, local) {
            Ok(response) => {
                let _ = self.advance_negotiation(NegotiationEvent::ParamsAgreed);
                EndPointMessage::NegotiateVisitDesktopParamsResponse(response)
            },
            Err(_) => {
                let _ = self.advance_negotiation(NegotiationEvent::Fault);
                EndPointMessage::Error
            },
        }
    }

    /// The passive side's answer to the request for its displays: the list
    /// it was given, while the display is being picked. Out of turn the
    /// answer is `Error` and the negotiation has failed.
    pub fn handle_select_monitor_request(&mut self, monitors: Vec<MonitorDescription>) -> (reply:
        EndPointMessage)
        ensures
            if old(self)@.negotiation == NegotiationState::SelectMonitor {
                &&& reply matches EndPointMessage::NegotiateSelectMonitorResponse(list)
                &&& list.monitor_descriptions == monitors
                &&& final(self)@ == old(self)@
            } else {
                &&& reply == EndPointMessage::Error
                &&& final(self)@ == at_state(old(self)@, NegotiationState::Failed)
            },
    {
        if self.negotiation_state() == NegotiationState::SelectMonitor {
            EndPointMessage::NegotiateSelectMonitorResponse(
                EndPointNegotiateSelectMonitorResponse { monitor_descriptions: monitors },
            )
        } else {
            let _ = self.advance_negotiation(NegotiationEvent::Fault);
            EndPointMessage::Error
        }
    }

    /// The passive side's answer to the finishing request, and what capture
    /// is to run with. The display is the one that was picked, or the primary
    /// one if that is gone; the frame rate is the expected one, but no more
    /// than the display refreshes. If capture can start, the negotiation is
    /// finished; out of turn, or if capture cannot start, the answer is
    /// `Error` and the negotiation has failed.
    pub fn handle_finished_request(
        &mut self,
        request: &EndPointNegotiateFinishedRequest,
        monitors: &Vec<MonitorDescription>,
    ) -> (r: (EndPointMessage, Option<CapturePlan>))
        ensures
            ({
                let before = old(self)@;
                let plan = planned_capture(
                    monitor_views(monitors@),
                    request@.selected_monitor_id,
                    request@.expected_frame_rate,
                );
                if before.negotiation == NegotiationState::SelectMonitor && plan is Ok {
                    &&& r.0 == EndPointMessage::NegotiateFinishedResponse(
                        EndPointNegotiateFinishedResponse {  },
                    )
                    &&& r.1 == Some(plan->Ok_0)
                    &&& final(self)@ == at_state(
                        before.after_capture_start(
                            monitor_views(monitors@),
                            request@.selected_monitor_id,
                            request@.expected_frame_rate,
                        ),
                        NegotiationState::Finished,
                    )
                } else {
                    &&& r.0 == EndPointMessage::Error
                    &&& r.1 is None
                    &&& final(self)@ == at_state(before, NegotiationState::Failed)
                }
            }),
    {
        if self.negotiation_state() != NegotiationState::SelectMonitor {
            let _ = self.advance_negotiation(NegotiationEvent::Fault);
            return (EndPointMessage::Error, None);
        }
        match self.start_video_capture(
            monitors,
            request.selected_monitor_id.as_str(),
            request.expected_frame_rate,
        ) {
            Ok(plan) => {
                let _ = self.advance_negotiation(NegotiationEvent::Finish);
                (
                    EndPointMessage::NegotiateFinishedResponse(
                        EndPointNegotiateFinishedResponse {  },
                    ),
                    Some(plan),
                )
            },
            Err(_) => {
                let _ = self.advance_negotiation(NegotiationEvent::Fault);
                (EndPointMessage::Error, None)
            },
        }
    }

    /// The active side's first step: the request that carries its offer. It
    /// is in turn only at the start of a session.
    pub fn begin_negotiation(&mut self, offer: EndPointNegotiateVisitDesktopParamsRequest) -> (r:
        Result<EndPointMessage, NegotiationError>)
        ensures
            if old(self)@.negotiation == NegotiationState::Idle {
                &&& r matches Ok(EndPointMessage::NegotiateVisitDesktopParamsRequest(sent))
                &&& sent == offer
                &&& final(self)@ == at_state(old(self)@, NegotiationState::NegotiateParams)
            } else {
                &&& r matches Err(e)
                &&& e == NegotiationError::OutOfTurn
                &&& final(self)@ == at_state(old(self)@, NegotiationState::Failed)
            },
    {
        if self.advance_negotiation(NegotiationEvent::Begin) == NegotiationState::Failed {
            return Err(NegotiationError::OutOfTurn);
        }
        Ok(EndPointMessage::NegotiateVisitDesktopParamsRequest(offer))
    }

    /// The active side's check of the reply to its offer, and its next
    /// request: the one for the displays. The reply must be an answer that
    /// stays within the offer.
    pub fn accept_params_response(
        &mut self,
        offer: &EndPointNegotiateVisitDesktopParamsRequest,
        reply: &EndPointMessage,
    ) -> (r: Result<EndPointMessage, NegotiationError>)
        ensures
            ({
                let before = old(self)@;
                let failed = at_state(before, NegotiationState::Failed);
                if before.negotiation != NegotiationState::NegotiateParams {
                    r matches Err(e) && e == NegotiationError::OutOfTurn && final(self)@ == failed
                } else {
                    match reply@ {
                        EndPointMessageView::NegotiateVisitDesktopParamsResponse(response) => {
                            if answer_within_offer(offer@, response) {
                                &&& r matches Ok(next)
                                &&& next == EndPointMessage::NegotiateSelectMonitorRequest(
                                    EndPointNegotiateSelectMonitorRequest {  },
                                )
                                &&& final(self)@ == at_state(
                                    before,
                                    NegotiationState::SelectMonitor,
                                )
                            } else {
                                &&& r matches Err(e)
                                &&& e == NegotiationError::AnswerOutsideOffer
                                &&& final(self)@ == failed
                            }
                        },
                        _ => {
                            &&& r matches Err(e)
                            &&& e == NegotiationError::UnexpectedReply
                            &&& final(self)@ == failed
                        },
                    }
                }
            }),
    {
        if self.negotiation_state() != NegotiationState::NegotiateParams {
            let _ = self.advance_negotiation(NegotiationEvent::Fault);
            return Err(NegotiationError::OutOfTurn);
        }
        match reply {
            EndPointMessage::NegotiateVisitDesktopParamsResponse(response) => {
                if accepts_params(offer, response) {
                    let _ = self.advance_negotiation(NegotiationEvent::ParamsAgreed);
                    Ok(
                        EndPointMessage::NegotiateSelectMonitorRequest(
                            EndPointNegotiateSelectMonitorRequest {  },
                        ),
                    )
                } else {
                    let _ = self.advance_negotiation(NegotiationEvent::Fault);
                    Err(NegotiationError::AnswerOutsideOffer)
                }
            },
            _ => {
                let _ = self.advance_negotiation(NegotiationEvent::Fault);
                Err(NegotiationError::UnexpectedReply)
            },
        }
    }

    /// The active side's pick from the displays on offer, and its next
    /// request: the finishing one. The pick is the display with the wanted
    /// id, or the primary display if none has it.
    pub fn accept_monitor_list(
        &mut self,
        reply: &EndPointMessage,
        wanted_monitor_id: &str,
        expected_frame_rate: u8,
    ) -> (r: Result<EndPointMessage, NegotiationError>)
        ensures
            ({
                let before = old(self)@;
                let failed = at_state(before, NegotiationState::Failed);
                if before.negotiation != NegotiationState::SelectMonitor {
                    r matches Err(e) && e == NegotiationError::OutOfTurn && final(self)@ == failed
                } else {
                    match reply@ {
                        EndPointMessageView::NegotiateSelectMonitorResponse(list) => {
                            match selected_monitor(
                                list.monitor_descriptions,
                                wanted_monitor_id@,
                            ) {
                                Some(i) => {
                                    &&& r matches Ok(
                                        EndPointMessage::NegotiateFinishedRequest(request),
                                    )
                                    &&& request@ == (EndPointNegotiateFinishedRequestView {
                                        selected_monitor_id: list.monitor_descriptions[i].id,
                                        expected_frame_rate,
                                    })
                                    &&& final(self)@ == before
                                },
                                None => {
                                    &&& r matches Err(e)
                                    &&& e == NegotiationError::MonitorNotFound
                                    &&& final(self)@ == failed
                                },
                            }
                        },
                        _ => {
                            &&& r matches Err(e)
                            &&& e == NegotiationError::UnexpectedReply
                            &&& final(self)@ == failed
                        },
                    }
                }
            }),
    {
        if self.negotiation_state() != NegotiationState::SelectMonitor {
            let _ = self.advance_negotiation(NegotiationEvent::Fault);
            return Err(NegotiationError::OutOfTurn);
        }
        match reply {
            EndPointMessage::NegotiateSelectMonitorResponse(list) => {
                match select_monitor(&list.monitor_descriptions, wanted_monitor_id) {
                    Some(index) => {
                        proof {
                            assert(monitor_views(list.monitor_descriptions@)[index as int]
                                == list.monitor_descriptions@[index as int]@);
                        }
                        let selected_monitor_id: String =
                            list.monitor_descriptions[index].id.clone();
                        Ok(
                            EndPointMessage::NegotiateFinishedRequest(
                                EndPointNegotiateFinishedRequest {
                                    selected_monitor_id,
                                    expected_frame_rate,
                                },
                            ),
                        )
                    },
                    None => {
                        let _ = self.advance_negotiation(NegotiationEvent::Fault);
                        Err(NegotiationError::MonitorNotFound)
                    },
                }
            },
            _ => {
                let _ = self.advance_negotiation(NegotiationEvent::Fault);
                Err(NegotiationError::UnexpectedReply)
            },
        }
    }

    /// The active side's last step: with the confirmation of the finishing
    /// request the negotiation is finished, and media may flow.
    pub fn accept_finished_response(&mut self, reply: &EndPointMessage) -> (r: Result<
        (),
        NegotiationError,
    >)
        ensures
            ({
                let before = old(self)@;
                let failed = at_state(before, NegotiationState::Failed);
                if before.negotiation != NegotiationState::SelectMonitor {
                    r matches Err(e) && e == NegotiationError::OutOfTurn && final(self)@ == failed
                } else if reply@ is NegotiateFinishedResponse {
                    r is Ok && final(self)@ == at_state(before, NegotiationState::Finished)
                } else {
                    r matches Err(e) && e == NegotiationError::UnexpectedReply && final(self)@
                        == failed
                }
            }),
    {
        if self.negotiation_state() != NegotiationState::SelectMonitor {
            let _ = self.advance_negotiation(NegotiationEvent::Fault);
            return Err(NegotiationError::OutOfTurn);
        }
        match reply {
            EndPointMessage::NegotiateFinishedResponse(_) => {
                let _ = self.advance_negotiation(NegotiationEvent::Finish);
                Ok(())
            },
            _ => {
                let _ = self.advance_negotiation(NegotiationEvent::Fault);
                Err(NegotiationError::UnexpectedReply)
            },
        }
    }
}

} // verus!
