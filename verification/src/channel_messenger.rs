use vstd::prelude::*;

use crate::auth_context::AuthContext;
use crate::error::Error;

verus! {

/// The capability contract any transport must satisfy to take part in an
/// authorization-code exchange: install a context, send the
/// authorization-initiation message, receive the resulting code.
///
/// The coordinator depends only on this contract, never on a concrete
/// channel; implementations (a loopback listener, a manual console
/// exchange, or the coordinator itself) live outside the core. An
/// implementation is free to fail any operation, but it must not corrupt
/// its state: an installed context survives sends and receives, and a
/// successful installation leaves the channel holding exactly the context
/// it was given.
pub trait ChannelMessenger: Sized {
    /// The context this channel currently holds — `None` until a context
    /// has been installed.
    spec fn context(&self) -> Option<AuthContext>;

    /// Gives the channel the data it needs to conduct its exchange (spin up
    /// a listener, prepare to print a URL). On success the channel holds
    /// the given context.
    fn install_context(&mut self, context: AuthContext) -> (r: Result<(), Error>)
        ensures
            r is Ok ==> final(self).context() == Some(context),
    ;

    /// Performs the channel-specific action that initiates the
    /// authorization step (open a browser, print a URL). Whether it
    /// succeeds or fails, the installed context is untouched.
    fn send_auth_message(&mut self) -> (r: Result<(), Error>)
        ensures
            final(self).context() == old(self).context(),
    ;

    /// Waits until an authorization code is available and returns it.
    /// Whether it succeeds or fails, the installed context is untouched.
    fn receive_auth_message(&mut self) -> (r: Result<String, Error>)
        ensures
            final(self).context() == old(self).context(),
    ;
}

} // verus!
