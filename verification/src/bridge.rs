//! The output bridge: one task per attached channel, relaying the container
//! process's output back to the SSH client.
//!
//! The task exclusively owns the process's output stream, so no
//! synchronization is needed on this path. This module holds its decisions:
//! forward every non-empty chunk as one data frame, in read order — stdout
//! and stderr alike, the client sees no distinction — and end with a fixed
//! exit-status report and a channel close when the stream ends, or stop at
//! once when a send fails because the client disconnected (channel teardown
//! then runs independently).

use vstd::prelude::*;

verus! {

/// What the bridge does next.
pub enum BridgeAction {
    /// Send the chunk as one channel-data frame.
    Forward,
    /// The chunk was empty: send nothing.
    Skip,
    /// The stream ended, the process exited: report the fixed exit status,
    /// then close the channel.
    Finish,
    /// A send failed, the client is gone: stop at once. No cleanup here —
    /// channel teardown runs independently when the SSH layer notices.
    Stop,
}

/// The exit status reported when the process's output stream ends.
pub const BRIDGE_EXIT_STATUS: u32 = 0;

/// The bridge task's state for one attached channel: whether it has ended,
/// and the ghost history of all bytes it forwarded, in order.
pub struct Bridge {
    pub channel_id: u64,
    pub done: bool,
    pub forwarded: Ghost<Seq<u8>>,
}

impl Bridge {
    /// A fresh bridge for the channel: nothing forwarded yet.
    pub fn new(channel_id: u64) -> (b: Bridge)
        ensures
            b.channel_id == channel_id,
            !b.done,
            b.forwarded@ == Seq::<u8>::empty(),
    {
        Bridge { channel_id, done: false, forwarded: Ghost(Seq::empty()) }
    }

    /// The next output chunk arrived: forward it whole if it holds anything.
    /// The forwarded history grows by exactly this chunk, at the end — the
    /// client sees the process's output in read order.
    pub fn on_chunk(&mut self, chunk: &[u8]) -> (r: BridgeAction)
        requires
            !old(self).done,
        ensures
            final(self).channel_id == old(self).channel_id,
            !final(self).done,
            chunk@.len() == 0 ==> r is Skip && final(self).forwarded@ == old(self).forwarded@,
            chunk@.len() > 0 ==> r is Forward && final(self).forwarded@ == old(self).forwarded@
                + chunk@,
    {
        if chunk.len() == 0 {
            proof {
                assert(self.forwarded@ == old(self).forwarded@);
            }
            BridgeAction::Skip
        } else {
            self.forwarded = Ghost(self.forwarded@ + chunk@);
            BridgeAction::Forward
        }
    }

    /// The output stream ended: the process exited. Report the fixed exit
    /// status, then close the channel.
    pub fn on_stream_end(&mut self) -> (r: BridgeAction)
        requires
            !old(self).done,
        ensures
            final(self).channel_id == old(self).channel_id,
            final(self).done,
            final(self).forwarded@ == old(self).forwarded@,
            r is Finish,
    {
        self.done = true;
        BridgeAction::Finish
    }

    /// A send to the client failed: the client disconnected. Stop at once.
    pub fn on_send_failure(&mut self) -> (r: BridgeAction)
        requires
            !old(self).done,
        ensures
            final(self).channel_id == old(self).channel_id,
            final(self).done,
            final(self).forwarded@ == old(self).forwarded@,
            r is Stop,
    {
        self.done = true;
        BridgeAction::Stop
    }
}

} // verus!
