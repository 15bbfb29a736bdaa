use osutil::pipeline::{ExtractError, ExtractMode, PipeAction, PipeEvent, PipelineState};

#[test]
fn happy_path_reaches_success_in_order() {
    let mut st = PipelineState::initial(ExtractMode::Member);
    assert_eq!(st.next_action(), PipeAction::Spawn);
    assert_eq!(st.verdict(), None);
    st = st.step(PipeEvent::Spawned { ok: true });
    assert_eq!(st.next_action(), PipeAction::Transfer);
    st = st.step(PipeEvent::Transferred {
        input_ok: true,
        output_ok: true,
    });
    assert_eq!(st.next_action(), PipeAction::Await);
    st = st.step(PipeEvent::Waited { status: Some(true) });
    assert_eq!(st.next_action(), PipeAction::Stop);
    assert_eq!(st.verdict(), Some(Ok(())));
}

#[test]
fn spawn_failure_is_fatal_and_skips_everything() {
    let st = PipelineState::initial(ExtractMode::Unpack).step(PipeEvent::Spawned { ok: false });
    assert_eq!(st.next_action(), PipeAction::Stop);
    assert_eq!(st.verdict(), Some(Err(ExtractError::SpawnFailed)));
}

#[test]
fn every_completed_join_still_reaps_the_child() {
    // Even a failed pipe flow leads to the wait, never straight to a verdict.
    for (input_ok, output_ok) in [(false, false), (false, true), (true, false), (true, true)] {
        let st = PipelineState::initial(ExtractMode::Member)
            .step(PipeEvent::Spawned { ok: true })
            .step(PipeEvent::Transferred { input_ok, output_ok });
        assert_eq!(st.next_action(), PipeAction::Await);
        assert_eq!(st.verdict(), None);
    }
}

#[test]
fn output_failure_takes_precedence_over_input_failure() {
    let st = PipelineState::initial(ExtractMode::Member)
        .step(PipeEvent::Spawned { ok: true })
        .step(PipeEvent::Transferred {
            input_ok: false,
            output_ok: false,
        })
        .step(PipeEvent::Waited { status: Some(true) });
    assert_eq!(st.verdict(), Some(Err(ExtractError::OutputFailed)));
}

#[test]
fn member_mode_reports_a_write_failure_despite_success() {
    // In the query mode a pipe failure on either side is the operation's
    // failure, even when the child exited successfully.
    let st = PipelineState::initial(ExtractMode::Member)
        .step(PipeEvent::Spawned { ok: true })
        .step(PipeEvent::Transferred {
            input_ok: false,
            output_ok: true,
        })
        .step(PipeEvent::Waited { status: Some(true) });
    assert_eq!(st.verdict(), Some(Err(ExtractError::InputFailed)));
}

#[test]
fn unpack_mode_tolerates_a_write_failure_on_successful_exit() {
    // No output is captured; the child closed its end early but exited
    // successfully, so its status is authoritative and the run succeeds.
    let st = PipelineState::initial(ExtractMode::Unpack)
        .step(PipeEvent::Spawned { ok: true })
        .step(PipeEvent::Transferred {
            input_ok: false,
            output_ok: true,
        })
        .step(PipeEvent::Waited { status: Some(true) });
    assert_eq!(st.verdict(), Some(Ok(())));
}

#[test]
fn unpack_mode_reports_a_write_failure_without_success() {
    let joined = PipelineState::initial(ExtractMode::Unpack)
        .step(PipeEvent::Spawned { ok: true })
        .step(PipeEvent::Transferred {
            input_ok: false,
            output_ok: true,
        });
    let failed_child = joined.step(PipeEvent::Waited {
        status: Some(false),
    });
    assert_eq!(failed_child.verdict(), Some(Err(ExtractError::InputFailed)));
    let failed_wait = joined.step(PipeEvent::Waited { status: None });
    assert_eq!(failed_wait.verdict(), Some(Err(ExtractError::InputFailed)));
}

#[test]
fn wait_failure_and_child_failure_are_distinct() {
    let joined = PipelineState::initial(ExtractMode::Member)
        .step(PipeEvent::Spawned { ok: true })
        .step(PipeEvent::Transferred {
            input_ok: true,
            output_ok: true,
        });
    let wait_failed = joined.step(PipeEvent::Waited { status: None });
    assert_eq!(wait_failed.verdict(), Some(Err(ExtractError::WaitFailed)));
    let child_failed = joined.step(PipeEvent::Waited {
        status: Some(false),
    });
    assert_eq!(child_failed.verdict(), Some(Err(ExtractError::ChildFailed)));
}

#[test]
fn status_cannot_be_read_before_the_join() {
    // A wait outcome arriving while the pipes are still moving is ignored:
    // the machine still demands the transfer.
    let st = PipelineState::initial(ExtractMode::Member)
        .step(PipeEvent::Spawned { ok: true })
        .step(PipeEvent::Waited { status: Some(true) });
    assert_eq!(
        st,
        PipelineState::Transferring {
            mode: ExtractMode::Member
        }
    );
    assert_eq!(st.next_action(), PipeAction::Transfer);
    assert_eq!(st.verdict(), None);
}

#[test]
fn finished_runs_never_move_again() {
    let done = PipelineState::initial(ExtractMode::Unpack).step(PipeEvent::Spawned { ok: false });
    let prodded = done
        .step(PipeEvent::Spawned { ok: true })
        .step(PipeEvent::Transferred {
            input_ok: true,
            output_ok: true,
        })
        .step(PipeEvent::Waited { status: Some(true) });
    assert_eq!(prodded, done);
    assert_eq!(prodded.verdict(), Some(Err(ExtractError::SpawnFailed)));
}
