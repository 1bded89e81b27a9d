use dx12_hal::command::CommandBuffer;
use dx12_hal::error::DeviceError;
use dx12_hal::sync::{
    Fence, Idler, Queue, WaitStep, INFINITE, WAIT_ABANDONED, WAIT_FAILED, WAIT_OBJECT_0,
    WAIT_TIMEOUT,
};
use dx12_hal::RawHandle;

fn idler() -> Idler {
    Idler { fence: RawHandle(0xF), event: RawHandle(0xE) }
}

#[test]
fn wait_constants() {
    assert_eq!(WAIT_OBJECT_0, 0);
    assert_eq!(WAIT_ABANDONED, 128);
    assert_eq!(WAIT_TIMEOUT, 0x102);
    assert_eq!(WAIT_FAILED, u32::MAX);
    assert_eq!(INFINITE, u32::MAX);
}

#[test]
fn a_wait_of_no_time_on_a_fence_that_is_behind_times_out() {
    assert_eq!(idler().wait(3, 4, 0), WaitStep::TimedOut);
    assert_eq!(idler().wait(0, u64::MAX, 0), WaitStep::TimedOut);
    // and the status of a wait that ran out of time is no error either
    assert_eq!(Idler::wait_result(WAIT_TIMEOUT), Ok(false));
}

#[test]
fn a_fence_that_has_reached_the_value_needs_no_wait() {
    assert_eq!(idler().wait(4, 4, 0), WaitStep::Reached);
    assert_eq!(idler().wait(5, 4, 1000), WaitStep::Reached);
    assert_eq!(idler().wait(0, 0, INFINITE), WaitStep::Reached);
}

#[test]
fn otherwise_the_wait_blocks_on_the_event() {
    assert_eq!(
        idler().wait(3, 4, 16),
        WaitStep::Block { fence: RawHandle(0xF), event: RawHandle(0xE), value: 4, timeout_ms: 16 }
    );
}

#[test]
fn waiting_for_idle_has_no_timeout() {
    assert_eq!(
        idler().wait_idle(7, 9),
        WaitStep::Block {
            fence: RawHandle(0xF),
            event: RawHandle(0xE),
            value: 9,
            timeout_ms: INFINITE
        }
    );
    assert_eq!(idler().wait_idle(9, 9), WaitStep::Reached);
}

#[test]
fn wait_statuses_are_classified() {
    assert_eq!(Idler::wait_result(WAIT_OBJECT_0), Ok(true));
    assert_eq!(Idler::wait_result(WAIT_TIMEOUT), Ok(false));
    assert_eq!(Idler::wait_result(WAIT_ABANDONED), Err(DeviceError::Lost));
    assert_eq!(Idler::wait_result(WAIT_FAILED), Err(DeviceError::Lost));
    assert_eq!(Idler::wait_result(1), Err(DeviceError::Lost));
    assert_eq!(Idler::wait_result(0xC0), Err(DeviceError::Lost));
}

#[test]
fn a_submission_keeps_the_order_and_the_signal() {
    let mut queue = Queue { raw: RawHandle(0x77) };
    let buffers = vec![
        CommandBuffer { raw: RawHandle(3) },
        CommandBuffer { raw: RawHandle(1) },
        CommandBuffer { raw: RawHandle(2) },
    ];
    let fence = Fence { raw: RawHandle(0x99) };
    let submission = queue.submit(&buffers, Some((&fence, 12))).unwrap();
    assert_eq!(submission.lists, vec![RawHandle(3), RawHandle(1), RawHandle(2)]);
    assert_eq!(submission.signal, Some((RawHandle(0x99), 12)));
    let empty = queue.submit(&Vec::new(), None).unwrap();
    assert!(empty.lists.is_empty());
    assert_eq!(empty.signal, None);
    assert_eq!(queue.raw, RawHandle(0x77));
}
