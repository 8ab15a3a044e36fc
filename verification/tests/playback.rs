use identity::playback::{
    changed_value, collect_batch, format_position, frames_to_step, is_idle,
    needs_backward_turn, needs_forward_turn, on_player_bus_event, play_request, seeked,
    step_request, turned_backward, turned_forward, PipelineState, PlayerBusAction,
    PlayerBusEvent, Request, RequestBatch, StepState,
};
use identity::playback::{begin_batch, next_action, BatchStage, ThreadAction};

/// Runs a batch to the end; `turns` says whether each turn asked for happens.
fn run_all(reqs: Vec<Request>, backwards: bool, turns: bool) -> Vec<ThreadAction> {
    let mut run = begin_batch(collect_batch(&reqs), backwards);
    let mut out = Vec::new();
    let mut turned = false;
    loop {
        let a = next_action(&mut run, turned);
        turned = turns && matches!(a, ThreadAction::TurnBackwards | ThreadAction::TurnForwards);
        if a == ThreadAction::Done {
            break;
        }
        out.push(a);
        if a == ThreadAction::Shutdown {
            assert_eq!(run.stage, BatchStage::Finished);
            break;
        }
    }
    out
}

#[test]
fn batch_work_comes_in_order() {
    let reqs = vec![
        Request::SetPlaying { play: true },
        Request::Seek { position_ns: 5 },
        Request::SetRate { rate_bits: 2.0f64.to_bits() },
        Request::Seek { position_ns: 9 },
        Request::StepForwards,
        Request::StepForwards,
    ];
    assert_eq!(
        run_all(reqs, true, true),
        vec![
            ThreadAction::Seek { position_ns: 9, seeks_batched: 2 },
            ThreadAction::Step { frames: 2 },
            ThreadAction::SetRate { rate_bits: 2.0f64.to_bits() },
            ThreadAction::SetPlaying { play: true },
        ]
    );
}

#[test]
fn exit_applies_nothing() {
    let reqs = vec![Request::Seek { position_ns: 1 }, Request::StepBack, Request::Exit];
    assert_eq!(run_all(reqs, false, true), vec![ThreadAction::Shutdown]);
    assert_eq!(run_all(vec![Request::StepForwards, Request::StepBack], false, true), vec![]);
}

#[test]
fn turning_steps_one_frame() {
    // Two frames back while playing forwards: the turn does one of them.
    let back = vec![Request::StepBack, Request::StepBack];
    assert_eq!(
        run_all(back.clone(), false, true),
        vec![ThreadAction::TurnBackwards, ThreadAction::Step { frames: 1 }]
    );
    // Without a known position the turn does not happen, so both frames are stepped.
    assert_eq!(
        run_all(back, false, false),
        vec![ThreadAction::TurnBackwards, ThreadAction::Step { frames: 2 }]
    );
    // Playing while backwards turns forwards first; one frame forwards is the turn alone.
    assert_eq!(
        run_all(vec![Request::StepForwards, Request::SetPlaying { play: true }], true, true),
        vec![ThreadAction::TurnForwards, ThreadAction::SetPlaying { play: true }]
    );
    // A seek plays forwards, so a later step back turns again.
    assert_eq!(
        run_all(vec![Request::Seek { position_ns: 3 }, Request::StepBack], true, true),
        vec![ThreadAction::Seek { position_ns: 3, seeks_batched: 1 }, ThreadAction::TurnBackwards]
    );
}

#[test]
fn position_labels() {
    assert_eq!(format_position(0), "0:00");
    assert_eq!(format_position(999_999_999), "0:00");
    assert_eq!(format_position(5_000_000_000), "0:05");
    assert_eq!(format_position(65_000_000_000), "1:05");
    assert_eq!(format_position(3_599_000_000_000), "59:59");
    assert_eq!(format_position(3_600_000_000_000), "1:00:00");
    assert_eq!(format_position(3_723_000_000_000), "1:02:03");
    assert_eq!(format_position(36_000_000_000_000), "10:00:00");
}

#[test]
fn batches_merge_requests() {
    let b = collect_batch(&vec![
        Request::Seek { position_ns: 5 },
        Request::StepForwards,
        Request::SetPlaying { play: true },
        Request::Seek { position_ns: 7 },
        Request::StepForwards,
        Request::StepBack,
        Request::StepForwards,
        Request::SetRate { rate_bits: 0.5f64.to_bits() },
        Request::SetPlaying { play: false },
    ]);
    assert_eq!(
        b,
        RequestBatch {
            seek_to: Some(7),
            seeks_batched: 2,
            step: 2,
            set_playing: Some(false),
            set_rate: Some(0.5f64.to_bits()),
            exit: false,
        }
    );
    assert!(!is_idle(&b));
}

#[test]
fn requests_after_exit_do_not_count() {
    let b = collect_batch(&vec![Request::StepBack, Request::Exit, Request::Seek { position_ns: 1 }]);
    assert!(b.exit);
    assert_eq!(b.step, -1);
    assert_eq!(b.seek_to, None);
    assert_eq!(b.seeks_batched, 0);
}

#[test]
fn opposite_steps_cancel_out() {
    let b = collect_batch(&vec![Request::StepForwards, Request::StepBack]);
    assert!(is_idle(&b));
    assert!(is_idle(&collect_batch(&vec![])));
}

#[test]
fn stepping_back_turns_the_direction_around() {
    let mut s = StepState { step: -1, backwards: false };
    assert!(needs_backward_turn(&s));
    turned_backward(&mut s);
    assert_eq!(s, StepState { step: 0, backwards: true });
    assert_eq!(frames_to_step(&s), 0);

    let mut s = StepState { step: -3, backwards: true };
    assert!(!needs_backward_turn(&s));
    assert_eq!(frames_to_step(&s), 3);
    assert!(needs_forward_turn(&s, Some(true)));
    turned_forward(&mut s);
    assert_eq!(s, StepState { step: -4, backwards: false });

    let mut s = StepState { step: 2, backwards: true };
    assert!(needs_forward_turn(&s, None));
    seeked(&mut s);
    assert_eq!(s, StepState { step: 2, backwards: false });
    assert!(!needs_forward_turn(&s, Some(true)));
}

#[test]
fn player_front_requests() {
    assert_eq!(play_request(false, false), None);
    assert_eq!(play_request(false, true), Some(Request::SetPlaying { play: true }));
    assert_eq!(step_request(true, true), None);
    assert_eq!(step_request(false, true), Some(Request::StepForwards));
    assert_eq!(step_request(false, false), Some(Request::StepBack));
    assert_eq!(changed_value(Some(3), None), None);
    assert_eq!(changed_value(Some(3), Some(3)), None);
    assert_eq!(changed_value(Some(3), Some(4)), Some(4));
    assert_eq!(changed_value(None, Some(4)), Some(4));
}

#[test]
fn player_bus_reactions() {
    let changed = |current, pending| PlayerBusEvent::PipelineStateChanged { current, pending };
    assert_eq!(
        on_player_bus_event(changed(PipelineState::Playing, PipelineState::VoidPending)),
        PlayerBusAction::SetIsPlaying { playing: true }
    );
    assert_eq!(
        on_player_bus_event(changed(PipelineState::Paused, PipelineState::VoidPending)),
        PlayerBusAction::SetIsPlaying { playing: false }
    );
    assert_eq!(
        on_player_bus_event(changed(PipelineState::Paused, PipelineState::Playing)),
        PlayerBusAction::Nothing
    );
    assert_eq!(on_player_bus_event(PlayerBusEvent::EndOfStream), PlayerBusAction::SeekToStart);
    assert_eq!(on_player_bus_event(PlayerBusEvent::DurationChanged), PlayerBusAction::UpdateDuration);
    assert_eq!(on_player_bus_event(PlayerBusEvent::Error), PlayerBusAction::DetachFailingSource);
}
