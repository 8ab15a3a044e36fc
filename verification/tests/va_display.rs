use identity::va_display::{
    on_context_msg, ready_display, ContextAction, ContextMessage, ContextStep, SyncReply,
    VaDisplayState,
};

fn step(reply: SyncReply, action: ContextAction) -> ContextStep {
    ContextStep { reply, action }
}

#[test]
fn first_asker_creates_and_others_wait() {
    let mut state = VaDisplayState::Empty;
    let r = on_context_msg(&mut state, ContextMessage::NeedContext { is_va: true, src: 1 });
    assert_eq!(r, step(SyncReply::Drop, ContextAction::LetCreate));
    assert_eq!(state, VaDisplayState::Creating { creator: 1 });
    assert_eq!(ready_display(&state), None);

    let r = on_context_msg(&mut state, ContextMessage::NeedContext { is_va: true, src: 2 });
    assert_eq!(r, step(SyncReply::Drop, ContextAction::WaitForDisplay));
    assert_eq!(state, VaDisplayState::Creating { creator: 1 });

    // Another element's context does not finish the creation.
    let r = on_context_msg(
        &mut state,
        ContextMessage::HaveContext { is_va: true, src: Some(2), display: Some(9) },
    );
    assert_eq!(r, step(SyncReply::Drop, ContextAction::Nothing));
    assert_eq!(state, VaDisplayState::Creating { creator: 1 });

    let r = on_context_msg(
        &mut state,
        ContextMessage::HaveContext { is_va: true, src: Some(1), display: Some(9) },
    );
    assert_eq!(r, step(SyncReply::Drop, ContextAction::NotifyWaiters));
    assert_eq!(state, VaDisplayState::Ready { display: Some(9) });
    assert_eq!(ready_display(&state), Some(Some(9)));

    let r = on_context_msg(&mut state, ContextMessage::NeedContext { is_va: true, src: 3 });
    assert_eq!(r, step(SyncReply::Drop, ContextAction::UseDisplay { display: Some(9) }));
    // Once ready, nothing changes the state any more.
    on_context_msg(&mut state, ContextMessage::Error { src: Some(1) });
    on_context_msg(
        &mut state,
        ContextMessage::HaveContext { is_va: true, src: Some(1), display: Some(10) },
    );
    assert_eq!(state, VaDisplayState::Ready { display: Some(9) });
}

#[test]
fn creator_error_makes_the_display_unavailable() {
    let mut state = VaDisplayState::Creating { creator: 1 };
    let r = on_context_msg(&mut state, ContextMessage::Error { src: Some(2) });
    assert_eq!(r, step(SyncReply::Pass, ContextAction::Nothing));
    assert_eq!(state, VaDisplayState::Creating { creator: 1 });
    let r = on_context_msg(&mut state, ContextMessage::Error { src: Some(1) });
    assert_eq!(r, step(SyncReply::Pass, ContextAction::NotifyWaiters));
    assert_eq!(state, VaDisplayState::Ready { display: None });
    let r = on_context_msg(&mut state, ContextMessage::NeedContext { is_va: true, src: 4 });
    assert_eq!(r, step(SyncReply::Drop, ContextAction::UseDisplay { display: None }));
}

#[test]
fn other_contexts_pass_through() {
    let mut state = VaDisplayState::Empty;
    let r = on_context_msg(&mut state, ContextMessage::NeedContext { is_va: false, src: 1 });
    assert_eq!(r, step(SyncReply::Pass, ContextAction::Nothing));
    assert_eq!(state, VaDisplayState::Empty);
    let r = on_context_msg(
        &mut state,
        ContextMessage::HaveContext { is_va: false, src: Some(1), display: None },
    );
    assert_eq!(r, step(SyncReply::Pass, ContextAction::Nothing));
    let r = on_context_msg(&mut state, ContextMessage::Other);
    assert_eq!(r, step(SyncReply::Pass, ContextAction::Nothing));
    assert_eq!(state, VaDisplayState::Empty);
}
