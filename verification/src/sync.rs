//! Rendezvous between the CPU and the GPU: fences, waits and submissions.

use vstd::prelude::*;
use crate::command::CommandBuffer;
use crate::error::DeviceError;
use crate::RawHandle;

verus! {

/// Wait status: the object was signalled.
pub const WAIT_OBJECT_0: u32 = 0;

/// Wait status: the owner of the object went away without releasing it.
pub const WAIT_ABANDONED: u32 = 0x80;

/// Wait status: the time ran out.
pub const WAIT_TIMEOUT: u32 = 258;

/// Wait status: the wait itself failed.
pub const WAIT_FAILED: u32 = 0xFFFF_FFFF;

/// Timeout that never runs out.
pub const INFINITE: u32 = 0xFFFF_FFFF;

/// A fence. Its value is kept by whoever submits work: each submission
/// names the value to signal, and the values never go down.
#[derive(Debug)]
pub struct Fence {
    pub raw: RawHandle,
}

/// What a wait status means: `Some(true)` when the object was signalled,
/// `Some(false)` when the time ran out, `None` for every other status.
pub open spec fn wait_outcome(status: u32) -> Option<bool> {
    if status == WAIT_OBJECT_0 {
        Some(true)
    } else if status == WAIT_TIMEOUT {
        Some(false)
    } else {
        None
    }
}

/// What a wait for a fence value has to do next.
#[derive(Clone, Copy, Debug, PartialEq, Eq, Structural)]
pub enum WaitStep {
    /// The fence has reached the value.
    Reached,
    /// The fence has not reached the value and there is no time to wait.
    TimedOut,
    /// Arm the event for the value, then wait on it for at most the timeout.
    Block { fence: RawHandle, event: RawHandle, value: u64, timeout_ms: u32 },
}

/// Helper structure for waiting for GPU.
#[derive(Debug)]
pub struct Idler {
    pub fence: RawHandle,
    pub event: RawHandle,
}

impl Idler {
    /// Decides how to wait until the fence reaches `value`, given the value
    /// that it has completed.
    ///
    /// Nothing blocks when the value is reached already, nor when the
    /// timeout is zero: the wait has then timed out.
    pub fn wait(&self, completed: u64, value: u64, timeout_ms: u32) -> (step: WaitStep)
        ensures
            step == (if completed >= value {
                WaitStep::Reached
            } else if timeout_ms == 0 {
                WaitStep::TimedOut
            } else {
                WaitStep::Block { fence: self.fence, event: self.event, value, timeout_ms }
            }),
    {
        if completed >= value {
            WaitStep::Reached
        } else if timeout_ms == 0 {
            WaitStep::TimedOut
        } else {
            WaitStep::Block { fence: self.fence, event: self.event, value, timeout_ms }
        }
    }

    /// Reads the status that a wait on the event returned: whether the
    /// fence reached the value in time. An abandoned or failed wait, and a
    /// status that is not known, mean that the device is lost.
    pub fn wait_result(status: u32) -> (r: Result<bool, DeviceError>)
        ensures
            r == (match wait_outcome(status) {
                Some(reached) => Ok::<bool, DeviceError>(reached),
                None => Err::<bool, DeviceError>(DeviceError::Lost),
            }),
    {
        if status == WAIT_OBJECT_0 {
            Ok(true)
        } else if status == WAIT_TIMEOUT {
            Ok(false)
        } else {
            Err(DeviceError::Lost)
        }
    }

    /// The wait that a device makes to become idle: for the value that was
    /// signalled last, without a timeout.
    pub fn wait_idle(&self, completed: u64, signalled: u64) -> (step: WaitStep)
        ensures
            step == (if completed >= signalled {
                WaitStep::Reached
            } else {
                WaitStep::Block {
                    fence: self.fence,
                    event: self.event,
                    value: signalled,
                    timeout_ms: INFINITE,
                }
            }),
    {
        self.wait(completed, signalled, INFINITE)
    }
}

/// What a submission hands to the native queue.
#[derive(Debug)]
pub struct Submission {
    /// The command lists to execute, in this order.
    pub lists: Vec<RawHandle>,
    /// The fence to signal once they have run, and the value to signal.
    pub signal: Option<(RawHandle, u64)>,
}

/// A queue of the device.
#[derive(Debug)]
pub struct Queue {
    pub raw: RawHandle,
}

impl Queue {
    /// Submits command buffers, in the order given, and then signals the
    /// fence with the value, if there is one.
    pub fn submit(&mut self, command_buffers: &Vec<CommandBuffer>, signal_fence: Option<(&Fence, u64)>) -> (r:
        Result<Submission, DeviceError>)
        ensures
            final(self).raw == old(self).raw,
            r matches Ok(submission) && {
                &&& submission.lists@ == command_buffers@.map_values(|c: CommandBuffer| c.raw)
                &&& submission.signal == (match signal_fence {
                    Some(pair) => Some((pair.0.raw, pair.1)),
                    None => None,
                })
            },
    {
        let mut lists: Vec<RawHandle> = Vec::new();
        let mut k: usize = 0;
        while k < command_buffers.len()
            invariant
                k <= command_buffers@.len(),
                lists@ == command_buffers@.map_values(|c: CommandBuffer| c.raw).take(k as int),
            decreases command_buffers@.len() - k,
        {
            lists.push(command_buffers[k].raw);
            k = k + 1;
        }
        let signal = match signal_fence {
            Some(pair) => Some((pair.0.raw, pair.1)),
            None => None,
        };
        Ok(Submission { lists, signal })
    }
}

} // verus!
