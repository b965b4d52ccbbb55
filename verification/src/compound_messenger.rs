use vstd::prelude::*;

use crate::auth_context::AuthContext;
use crate::channel_messenger::ChannelMessenger;
use crate::error::Error;

verus! {

/// A coordinator that presents the channel capability contract while
/// internally routing each call to one of two owned channels, with
/// automatic, sticky, one-directional failover.
///
/// The selection counter starts at 0 ("use the default channel"), moves to
/// 1 ("use the other channel") when the default channel fails a send, and
/// to 2 ("no channel available", terminal) when the other channel fails
/// too. It only ever advances: once a channel has been marked failed, no
/// later call is routed back to it, and once both have failed every call
/// fails fast with the terminal error.
#[derive(Debug)]
pub struct CompoundMessenger<CM0: ChannelMessenger, CM1: ChannelMessenger> {
    select: usize,
    default: CM0,
    other: CM1,
}

impl<CM0: ChannelMessenger, CM1: ChannelMessenger> CompoundMessenger<CM0, CM1> {
    /// The selection counter: 0 routes to the default channel, 1 to the
    /// other channel, 2 is terminal exhaustion. Any stored value at or
    /// past 2 designates the same terminal state, so it is reported as 2;
    /// in fact the counter never advances past 2.
    pub closed spec fn selection(&self) -> int {
        if self.select >= 2 {
            2
        } else {
            self.select as int
        }
    }

    /// The preferred channel, tried first.
    pub closed spec fn default_channel(&self) -> CM0 {
        self.default
    }

    /// The fallback channel, tried once the default has failed.
    pub closed spec fn other_channel(&self) -> CM1 {
        self.other
    }

    /// Builds a coordinator from two already-configured channels. The
    /// selection counter starts at 0: the default channel is active.
    pub fn new(default: CM0, other: CM1) -> (r: Self)
        ensures
            r.selection() == 0,
            r.default_channel() == default,
            r.other_channel() == other,
    {
        Self { select: 0, default, other }
    }
}

impl<CM0: ChannelMessenger, CM1: ChannelMessenger> ChannelMessenger for CompoundMessenger<
    CM0,
    CM1,
> {
    /// The context the coordinator holds is the one both channels agree
    /// on; before a successful broadcast there is no such agreement in
    /// general, and the coordinator holds none of its own.
    closed spec fn context(&self) -> Option<AuthContext> {
        if self.default.context() == self.other.context() {
            self.default.context()
        } else {
            None
        }
    }

    /// Broadcasts an independent copy of `context` to both channels, the
    /// default channel first. If the default channel's installation fails,
    /// the call fails immediately with that error and the other channel is
    /// never touched. The selection counter is not consulted and not
    /// changed: either channel might end up handling the exchange.
    fn install_context(&mut self, context: AuthContext) -> (r: Result<(), Error>)
        ensures
            final(self).selection() == old(self).selection(),
            r is Ok ==> final(self).default_channel().context() == Some(context)
                && final(self).other_channel().context() == Some(context),
            final(self).other_channel() != old(self).other_channel()
                ==> final(self).default_channel().context() == Some(context),
    {
        match self.default.install_context(context.duplicate()) {
            Ok(()) => self.other.install_context(context),
            Err(e) => Err(e),
        }
    }

    /// Routes the send to the selected channel, advancing the selection by
    /// exactly 1 on each failure and retrying, so a default-channel failure
    /// causes exactly one fallback attempt on the other channel within the
    /// same call. The advance is persistent: failover is sticky, not
    /// per-call. Once the selection is past 0 the default channel is never
    /// touched again; once it reaches 2 the call fails immediately with
    /// the terminal error and nothing is touched at all.
    fn send_auth_message(&mut self) -> (r: Result<(), Error>)
        ensures
            old(self).selection() <= final(self).selection() <= 2,
            final(self).default_channel().context() == old(self).default_channel().context(),
            final(self).other_channel().context() == old(self).other_channel().context(),
            old(self).selection() >= 1
                ==> final(self).default_channel() == old(self).default_channel(),
            final(self).selection() == 0
                ==> final(self).other_channel() == old(self).other_channel(),
            old(self).selection() >= 2 ==> *final(self) == *old(self),
            r is Ok <==> final(self).selection() <= 1,
            r is Ok && old(self).selection() == 1 ==> final(self).selection() == 1,
            r matches Err(e) ==> e.message_view() == "No Messengers available to send"@,
    {
        loop
            invariant
                old(self).selection() <= self.selection() <= 2,
                self.default.context() == old(self).default_channel().context(),
                self.other.context() == old(self).other_channel().context(),
                old(self).selection() >= 1 ==> self.default == old(self).default_channel(),
                self.selection() == 0 ==> self.other == old(self).other_channel(),
                old(self).selection() >= 2 ==> self.select == old(self).select && self.default
                    == old(self).default_channel() && self.other == old(self).other_channel(),
            decreases 3 - self.select,
        {
            let result = match self.select {
                0 => self.default.send_auth_message(),
                1 => self.other.send_auth_message(),
                _ => {
                    return Err(
                        Error::ChannelMessenger(String::from_str("No Messengers available to send")),
                    );
                },
            };

            match result {
                Ok(()) => {
                    return Ok(());
                },
                Err(_) => {
                    self.select = self.select + 1;
                },
            }
        }
    }

    /// Routes the receive to the channel the selection counter designates:
    /// the default channel at 0, the other channel at 1, the terminal
    /// error at 2. No failover and no counter mutation: receive trusts
    /// that `send_auth_message` has already resolved which channel is
    /// active, and surfaces whatever the selected channel returns.
    fn receive_auth_message(&mut self) -> (r: Result<String, Error>)
        ensures
            final(self).selection() == old(self).selection(),
            final(self).default_channel().context() == old(self).default_channel().context(),
            final(self).other_channel().context() == old(self).other_channel().context(),
            old(self).selection() == 0 ==> final(self).other_channel() == old(self).other_channel(),
            old(self).selection() >= 1
                ==> final(self).default_channel() == old(self).default_channel(),
            old(self).selection() >= 2 ==> *final(self) == *old(self) && (r matches Err(e)
                && e.message_view() == "No Messengers receive successfully"@),
    {
        match self.select {
            0 => self.default.receive_auth_message(),
            1 => self.other.receive_auth_message(),
            _ => Err(Error::ChannelMessenger(String::from_str("No Messengers receive successfully"))),
        }
    }
}

/// The selection counter is monotone over a whole run, not only over one
/// call: in any history of observed counter values in which each call
/// leaves the counter no smaller than it found it — which is what
/// `install_context`, `send_auth_message` and `receive_auth_message` each
/// ensure — every later observation is at least every earlier one. The
/// counter is never seen to decrease or wrap.
pub proof fn lemma_selection_monotone(history: Seq<int>, i: int, j: int)
    requires
        forall|k: int| 0 <= k < history.len() - 1 ==> #[trigger] history[k] <= history[k + 1],
        0 <= i <= j < history.len(),
    ensures
        history[i] <= history[j],
    decreases j - i,
{
    if i < j {
        lemma_selection_monotone(history, i, j - 1);
    }
}

} // verus!
