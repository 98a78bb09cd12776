use vstd::prelude::*;

use crate::command::GfxError;

verus! {

/// The reverse-direction channel: a single-slot "redraw wanted" signal
/// from the presentation side to the logic side. Capacity is exactly one
/// pending notification, so repeated signals before the logic task resumes
/// coalesce into a single wakeup — the logic task must regenerate against
/// current state rather than assume one wakeup per physical event.
pub struct ResizeSignal {
    pending: bool,
    closed: bool,
}

impl ResizeSignal {
    /// Whether a wakeup is pending.
    pub closed spec fn is_pending(self) -> bool {
        self.pending
    }

    /// Whether the logic side has permanently gone away.
    pub closed spec fn is_closed(self) -> bool {
        self.closed
    }

    pub fn new() -> (s: Self)
        ensures
            !s.is_pending(),
            !s.is_closed(),
    {
        ResizeSignal { pending: false, closed: false }
    }

    /// Presentation side, non-blocking: request a redraw. While the logic
    /// task lives this never fails and leaves exactly one wakeup pending,
    /// however many requests came before. Failure means the logic task has
    /// permanently exited — an unrecoverable condition, since no redraw
    /// can ever be requested again.
    pub fn notify(&mut self) -> (r: Result<(), GfxError>)
        ensures
            old(self).is_closed() ==> r == Err::<(), GfxError>(GfxError::ResizeReceiverGone)
                && *final(self) == *old(self),
            !old(self).is_closed() ==> r == Ok::<(), GfxError>(()) && final(self).is_pending()
                && !final(self).is_closed(),
            *final(self) == after_notifies(*old(self), 1),
    {
        proof {
            assert(after_notifies(*old(self), 0) == *old(self));
        }
        if self.closed {
            Err(GfxError::ResizeReceiverGone)
        } else {
            self.pending = true;
            Ok(())
        }
    }

    /// Logic side: consume the pending wakeup, if any. In a running system
    /// the logic task suspends until this would return true; the suspension
    /// itself belongs to the task runtime around the core.
    pub fn take_notification(&mut self) -> (r: bool)
        ensures
            r == old(self).is_pending(),
            !final(self).is_pending(),
            final(self).is_closed() == old(self).is_closed(),
    {
        let was = self.pending;
        self.pending = false;
        was
    }

    /// Logic side, retire path: the receive loop has terminated for good.
    pub fn close(&mut self)
        ensures
            final(self).is_closed(),
            final(self).is_pending() == old(self).is_pending(),
    {
        self.closed = true;
    }
}

/// The signal's state after `n` further calls to `notify`.
pub closed spec fn after_notifies(s: ResizeSignal, n: nat) -> ResizeSignal
    decreases n,
{
    if n == 0 {
        s
    } else {
        let prev = after_notifies(s, (n - 1) as nat);
        if prev.closed {
            prev
        } else {
            ResizeSignal { pending: true, closed: false }
        }
    }
}

/// Law (coalescing): any number of `notify` calls arriving before the
/// logic task resumes collapse to a single pending wakeup — after `n >= 1`
/// of them the signal is in exactly the state one call leaves, with one
/// wakeup pending; the one `take_notification` that follows returns true
/// and clears it, so the task resumes once, not `n` times.
pub proof fn lemma_notifications_coalesce(s: ResizeSignal, n: nat)
    requires
        1 <= n,
        !s.is_closed(),
    ensures
        after_notifies(s, n) == after_notifies(s, 1),
        after_notifies(s, n).is_pending(),
        !after_notifies(s, n).is_closed(),
    decreases n,
{
    if n == 1 {
        assert(after_notifies(s, 0) == s);
    } else {
        lemma_notifications_coalesce(s, (n - 1) as nat);
        assert(after_notifies(s, n) == after_notifies(s, 1));
    }
}

} // verus!
