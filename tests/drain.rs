use rusty_rover::{
    dispatch_event, DrainAction, DrainPass, StopReason, TaskPriority, NRF_ERROR_DATA_SIZE,
    NRF_ERROR_INVALID_ADDR, NRF_ERROR_NOT_FOUND, NRF_SUCCESS,
};

fn drain_prio() -> TaskPriority {
    TaskPriority::new(1).unwrap()
}

#[test]
fn three_events_then_empty() {
    let mut pass = DrainPass::new(&drain_prio());
    let queue = [(NRF_SUCCESS, 16u16), (NRF_SUCCESS, 80), (NRF_SUCCESS, 1), (NRF_ERROR_NOT_FOUND, 0)];
    let mut handled = Vec::new();
    let mut steps = 0;
    for (status, id) in queue {
        assert!(!pass.is_finished());
        steps += 1;
        match pass.step(status, id) {
            DrainAction::Dispatch(d) => handled.push(d),
            DrainAction::Stop(reason) => {
                assert_eq!(reason, StopReason::QueueEmpty);
                break;
            }
        }
    }
    assert_eq!(steps, 4);
    assert!(pass.is_finished());
    assert_eq!(handled, vec![dispatch_event(16), dispatch_event(80), dispatch_event(1)]);
}

#[test]
fn empty_queue_stops_at_once() {
    let mut pass = DrainPass::new(&drain_prio());
    assert_eq!(pass.step(NRF_ERROR_NOT_FOUND, 0), DrainAction::Stop(StopReason::QueueEmpty));
    assert!(pass.is_finished());
}

#[test]
fn fetch_errors_end_the_pass() {
    let mut pass = DrainPass::new(&drain_prio());
    assert_eq!(pass.step(NRF_ERROR_INVALID_ADDR, 0), DrainAction::Stop(StopReason::InvalidAddress));
    let mut pass = DrainPass::new(&drain_prio());
    assert_eq!(pass.step(NRF_ERROR_DATA_SIZE, 0), DrainAction::Stop(StopReason::BufferTooSmall));
    let mut pass = DrainPass::new(&drain_prio());
    assert_eq!(pass.step(3, 0), DrainAction::Stop(StopReason::Unexpected(3)));
    assert!(pass.is_finished());
}

#[test]
fn event_step_dispatches_and_continues() {
    let mut pass = DrainPass::new(&drain_prio());
    assert_eq!(pass.step(NRF_SUCCESS, 17), DrainAction::Dispatch(dispatch_event(17)));
    assert!(!pass.is_finished());
}

#[test]
fn long_queue_drains_every_event_then_stops() {
    let mut pass = DrainPass::new(&drain_prio());
    let mut dispatched = 0;
    for i in 0u16..200 {
        match pass.step(NRF_SUCCESS, 16 + (i % 100)) {
            DrainAction::Dispatch(_) => dispatched += 1,
            DrainAction::Stop(_) => panic!("stopped on an event"),
        }
    }
    assert_eq!(pass.step(NRF_ERROR_NOT_FOUND, 0), DrainAction::Stop(StopReason::QueueEmpty));
    assert_eq!(dispatched, 200);
    assert!(pass.is_finished());
}

#[test]
fn error_mid_pass_leaves_rest_for_next_pass() {
    let mut pass = DrainPass::new(&drain_prio());
    assert!(matches!(pass.step(NRF_SUCCESS, 16), DrainAction::Dispatch(_)));
    assert_eq!(pass.step(NRF_ERROR_DATA_SIZE, 0), DrainAction::Stop(StopReason::BufferTooSmall));
    assert!(pass.is_finished());
    let mut next = DrainPass::new(&drain_prio());
    assert_eq!(next.step(NRF_SUCCESS, 80), DrainAction::Dispatch(dispatch_event(80)));
}
