//! Sharing one VA display among all playback pipelines.
//!
//! The first element that asks for a VA context creates the display; every other element that
//! asks meanwhile waits for it, and every later one gets it right away. Elements and displays
//! are identified by numbers that the streaming layer assigns.

use vstd::prelude::*;

verus! {

/// Where the shared VA display stands.
#[derive(Clone, Copy, Debug, PartialEq, Eq, Structural)]
pub enum VaDisplayState {
    /// No element asked for a VA display yet.
    Empty,
    /// The element `creator` is creating the VA display.
    Creating { creator: u64 },
    /// Creating the VA display was attempted; `display` is the result, if it succeeded.
    Ready { display: Option<u64> },
}

/// The bus messages that matter for sharing the VA display, reduced to what the decision reads.
#[derive(Clone, Copy, Debug, PartialEq, Eq, Structural)]
#[allow(inconsistent_fields)]
pub enum ContextMessage {
    /// The element `src` needs a context; `is_va` tells whether it is the VA display context.
    NeedContext { is_va: bool, src: u64 },
    /// The element `src` made a context; `display` is the VA display it holds, if any.
    HaveContext { is_va: bool, src: Option<u64>, display: Option<u64> },
    /// The element `src` reported an error.
    Error { src: Option<u64> },
    /// Any other message.
    Other,
}

/// The answer of a synchronous bus handler.
#[derive(Clone, Copy, Debug, PartialEq, Eq, Structural)]
pub enum SyncReply {
    /// The message is handled here and goes no further.
    Drop,
    /// The message goes on to the asynchronous handlers.
    Pass,
}

/// What the bus handler does besides replying.
#[derive(Clone, Copy, Debug, PartialEq, Eq, Structural)]
pub enum ContextAction {
    /// Nothing.
    Nothing,
    /// Let the asking element create the VA display itself.
    LetCreate,
    /// Wait until the display is ready, then hand it to the asking element.
    WaitForDisplay,
    /// Hand this display, if there is one, to the asking element.
    UseDisplay { display: Option<u64> },
    /// Wake every waiting handler: the display is ready.
    NotifyWaiters,
}

/// The reply and action for one message.
#[derive(Clone, Copy, Debug, PartialEq, Eq, Structural)]
pub struct ContextStep {
    pub reply: SyncReply,
    pub action: ContextAction,
}

/// The next state and the step for a message in a state.
pub open spec fn context_step(state: VaDisplayState, msg: ContextMessage) -> (
    VaDisplayState,
    ContextStep,
) {
    match msg {
        ContextMessage::NeedContext { is_va, src } => {
            if !is_va {
                (state, ContextStep { reply: SyncReply::Pass, action: ContextAction::Nothing })
            } else {
                match state {
                    VaDisplayState::Empty => (
                        VaDisplayState::Creating { creator: src },
                        ContextStep { reply: SyncReply::Drop, action: ContextAction::LetCreate },
                    ),
                    VaDisplayState::Creating { .. } => (
                        state,
                        ContextStep { reply: SyncReply::Drop, action: ContextAction::WaitForDisplay },
                    ),
                    VaDisplayState::Ready { display } => (
                        state,
                        ContextStep {
                            reply: SyncReply::Drop,
                            action: ContextAction::UseDisplay { display },
                        },
                    ),
                }
            }
        },
        ContextMessage::HaveContext { is_va, src, display } => {
            if !is_va {
                (state, ContextStep { reply: SyncReply::Pass, action: ContextAction::Nothing })
            } else {
                match state {
                    VaDisplayState::Creating { creator } => if src == Some(creator) {
                        (
                            VaDisplayState::Ready { display },
                            ContextStep {
                                reply: SyncReply::Drop,
                                action: ContextAction::NotifyWaiters,
                            },
                        )
                    } else {
                        (
                            state,
                            ContextStep { reply: SyncReply::Drop, action: ContextAction::Nothing },
                        )
                    },
                    _ => (
                        state,
                        ContextStep { reply: SyncReply::Drop, action: ContextAction::Nothing },
                    ),
                }
            }
        },
        ContextMessage::Error { src } => match state {
            VaDisplayState::Creating { creator } => if src == Some(creator) {
                (
                    VaDisplayState::Ready { display: None },
                    ContextStep { reply: SyncReply::Pass, action: ContextAction::NotifyWaiters },
                )
            } else {
                (state, ContextStep { reply: SyncReply::Pass, action: ContextAction::Nothing })
            },
            _ => (state, ContextStep { reply: SyncReply::Pass, action: ContextAction::Nothing }),
        },
        ContextMessage::Other => (
            state,
            ContextStep { reply: SyncReply::Pass, action: ContextAction::Nothing },
        ),
    }
}

/// Handles one bus message: updates the shared state and says how to reply and what to do.
pub fn on_context_msg(state: &mut VaDisplayState, msg: ContextMessage) -> (r: ContextStep)
    ensures
        (*final(state), r) == context_step(*old(state), msg),
{
    let no_action = ContextStep { reply: SyncReply::Pass, action: ContextAction::Nothing };
    match msg {
        ContextMessage::NeedContext { is_va, src } => {
            if !is_va {
                return no_action;
            }
            match *state {
                VaDisplayState::Empty => {
                    *state = VaDisplayState::Creating { creator: src };
                    ContextStep { reply: SyncReply::Drop, action: ContextAction::LetCreate }
                },
                VaDisplayState::Creating { .. } => ContextStep {
                    reply: SyncReply::Drop,
                    action: ContextAction::WaitForDisplay,
                },
                VaDisplayState::Ready { display } => ContextStep {
                    reply: SyncReply::Drop,
                    action: ContextAction::UseDisplay { display },
                },
            }
        },
        ContextMessage::HaveContext { is_va, src, display } => {
            if !is_va {
                return no_action;
            }
            if let VaDisplayState::Creating { creator } = *state {
                if src == Some(creator) {
                    *state = VaDisplayState::Ready { display };
                    return ContextStep {
                        reply: SyncReply::Drop,
                        action: ContextAction::NotifyWaiters,
                    };
                }
            }
            ContextStep { reply: SyncReply::Drop, action: ContextAction::Nothing }
        },
        ContextMessage::Error { src } => {
            if let VaDisplayState::Creating { creator } = *state {
                if src == Some(creator) {
                    *state = VaDisplayState::Ready { display: None };
                    return ContextStep {
                        reply: SyncReply::Pass,
                        action: ContextAction::NotifyWaiters,
                    };
                }
            }
            no_action
        },
        ContextMessage::Other => no_action,
    }
}

/// The display that a waiting element gets once creation was attempted; `None` while the
/// display is not ready yet.
pub fn ready_display(state: &VaDisplayState) -> (r: Option<Option<u64>>)
    ensures
        r == (match *state {
            VaDisplayState::Ready { display } => Some(display),
            _ => None,
        }),
{
    match *state {
        VaDisplayState::Ready { display } => Some(display),
        _ => None,
    }
}

/// Whether `msg` comes from the element `e` and ends a display creation: its VA context, or
/// an error.
pub open spec fn ends_creation_by(msg: ContextMessage, e: u64) -> bool {
    match msg {
        ContextMessage::HaveContext { is_va, src, .. } => is_va && src == Some(e),
        ContextMessage::Error { src } => src == Some(e),
        _ => false,
    }
}

/// Whether `msg` asks for the VA display context or offers one.
pub open spec fn is_va_context_message(msg: ContextMessage) -> bool {
    match msg {
        ContextMessage::NeedContext { is_va, .. } => is_va,
        ContextMessage::HaveContext { is_va, .. } => is_va,
        _ => false,
    }
}

/// Whether `msg` is a request for the VA display context.
pub open spec fn is_va_request(msg: ContextMessage) -> bool {
    match msg {
        ContextMessage::NeedContext { is_va, .. } => is_va,
        _ => false,
    }
}

/// Whether `msg` is a request for the VA display context from the element `e`.
pub open spec fn is_va_request_from(msg: ContextMessage, e: u64) -> bool {
    match msg {
        ContextMessage::NeedContext { is_va, src } => is_va && src == e,
        _ => false,
    }
}

/// Once creation was attempted, the state never changes again.
pub proof fn law_ready_is_final(display: Option<u64>, msg: ContextMessage)
    ensures
        context_step(VaDisplayState::Ready { display }, msg).0 == (VaDisplayState::Ready { display }),
{
}

/// Only the creating element ends the creation: any message from another element leaves the
/// state as it is.
pub proof fn law_only_creator_finishes(creator: u64, msg: ContextMessage)
    ensures
        context_step(VaDisplayState::Creating { creator }, msg).0 != (VaDisplayState::Creating {
            creator,
        }) ==> ends_creation_by(msg, creator),
{
}

/// Exactly one element creates the display: the first one that asks for it. After that, the
/// state is never empty again.
pub proof fn law_single_creator(msg: ContextMessage, other: VaDisplayState, e: u64)
    ensures
        is_va_request_from(msg, e) ==> context_step(VaDisplayState::Empty, msg).0 == (VaDisplayState::Creating { creator: e }),
        is_va_request_from(msg, e) ==> context_step(VaDisplayState::Empty, msg).1.action == ContextAction::LetCreate,
        context_step(VaDisplayState::Empty, msg).0 != VaDisplayState::Empty ==> is_va_request(msg),
        !(other is Empty) ==> !(context_step(other, msg).0 is Empty),
{
}

/// Requests for the VA display context are always answered here and never passed on; other
/// context requests, errors and other messages always pass on.
pub proof fn law_va_requests_are_dropped(state: VaDisplayState, msg: ContextMessage)
    ensures
        is_va_context_message(msg) <==> context_step(state, msg).1.reply == SyncReply::Drop,
{
}

} // verus!
