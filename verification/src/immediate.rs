//! The immediate-submission context: a single command pool, buffer and fence
//! used for synchronous one-off GPU work (setup-time uploads and layout
//! transitions) outside the pipelined frame ring.
//!
//! The path is intentionally not pipelined and not reentrant: a submission
//! opens, the caller records, and the close blocks on the context's fence
//! until the work is done. The fence is always waited on before the context
//! can be reused.

use vstd::prelude::*;

use crate::engine::RenderError;
use crate::frames::FenceWait;

verus! {

/// The immediate-submission context's bookkeeping: whether a submission is
/// open or in flight, and how many have completed.
pub struct ImmediateSubmit {
    in_use: bool,
    completed: u64,
}

impl ImmediateSubmit {
    /// Whether a submission is currently open or awaiting its fence.
    pub closed spec fn spec_in_use(&self) -> bool {
        self.in_use
    }

    /// How many submissions have fully completed (fence waited).
    pub closed spec fn spec_completed(&self) -> u64 {
        self.completed
    }

    /// A fresh context: command pool, buffer and signaled fence created; no
    /// submission open.
    pub fn new() -> (r: Self)
        ensures
            !r.spec_in_use(),
            r.spec_completed() == 0,
    {
        Self { in_use: false, completed: 0 }
    }

    pub fn in_use(&self) -> (r: bool)
        ensures
            r == self.spec_in_use(),
    {
        self.in_use
    }

    pub fn completed(&self) -> (r: u64)
        ensures
            r == self.spec_completed(),
    {
        self.completed
    }

    /// Open a submission: the fence and command buffer are reset and
    /// recording begins. The context must not already be in use — this path
    /// is not reentrant, and in particular must not be entered from inside
    /// per-frame recording.
    pub fn begin_submit(&mut self)
        requires
            !old(self).spec_in_use(),
        ensures
            final(self).spec_in_use(),
            final(self).spec_completed() == old(self).spec_completed(),
    {
        self.in_use = true;
    }

    /// Close a submission: recording ended, the work was submitted signaling
    /// the context's fence, and the caller blocked on that fence; its outcome
    /// is passed in. Only a signaled fence frees the context for reuse — a
    /// failed wait is fatal and the context stays unusable.
    pub fn finish_submit(&mut self, wait: FenceWait) -> (r: Result<(), RenderError>)
        requires
            old(self).spec_in_use(),
            old(self).spec_completed() < u64::MAX,
        ensures
            r is Ok <==> wait == FenceWait::Signaled,
            wait == FenceWait::Signaled ==> !final(self).spec_in_use()
                && final(self).spec_completed() == old(self).spec_completed() + 1,
            wait == FenceWait::Failed ==> r == Err::<(), RenderError>(RenderError::DeviceLost)
                && *final(self) == *old(self),
    {
        match wait {
            FenceWait::Signaled => {
                self.in_use = false;
                self.completed = self.completed + 1;
                Ok(())
            },
            FenceWait::Failed => Err(RenderError::DeviceLost),
        }
    }

    /// One whole synchronous submission: open, record (done by the caller
    /// between the reset and the submit in the driving code), submit, block
    /// on the fence. The caller accepts the full CPU stall.
    pub fn submit(&mut self, wait: FenceWait) -> (r: Result<(), RenderError>)
        requires
            !old(self).spec_in_use(),
            old(self).spec_completed() < u64::MAX,
        ensures
            r is Ok <==> wait == FenceWait::Signaled,
            wait == FenceWait::Signaled ==> !final(self).spec_in_use()
                && final(self).spec_completed() == old(self).spec_completed() + 1,
            wait == FenceWait::Failed ==> r == Err::<(), RenderError>(RenderError::DeviceLost)
                && final(self).spec_in_use() && final(self).spec_completed() == old(
                self,
            ).spec_completed(),
    {
        self.begin_submit();
        self.finish_submit(wait)
    }

    /// Release the context's pool, buffer and fence. Only safe once no
    /// submission is pending.
    pub fn destroy(&mut self)
        requires
            !old(self).spec_in_use(),
        ensures
            !final(self).spec_in_use(),
            final(self).spec_completed() == old(self).spec_completed(),
    {
    }
}

} // verus!
