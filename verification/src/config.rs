//! Options that control how a stubborn connection behaves once it is lost,
//! and how hard it tries to establish itself in the first place.

use vstd::prelude::*;

use crate::strategies::Delay;

verus! {

/// A generator of retry schedules: each call hands out a fresh schedule of waits.
pub type RetriesGenerator = Box<dyn Fn() -> Box<dyn Iterator<Item = Delay> + Send + Sync> + Send + Sync>;

/// A callback invoked on connection events.
pub type Callback = Box<dyn FnMut() + Send + Sync>;

/// The token by which a caller cancels connecting and reconnecting.
pub type CancellationToken = tokio_util::sync::CancellationToken;

/// User specified options that control the behavior of a stubborn connection upon disconnect.
///
/// `H` is the type of the event callbacks, `G` the type of the retry schedule generator and
/// `K` the type of the cancellation token.
pub struct ReconnectOptions<H = Callback, G = RetriesGenerator, K = CancellationToken> {
    /// The generator of the schedule of waits between reconnection attempts.
    /// `None` stands for the default schedule: an exponential backoff that starts at
    /// 5 seconds and eventually retries every 30 minutes, forever.
    pub retries_to_attempt_fn: Option<G>,
    /// If this is set to true and the initial connect attempt fails,
    /// then no further connect attempts are made.
    pub exit_if_first_connect_fails: bool,
    /// Invoked when a connection is established.
    pub on_connect_callback: Option<H>,
    /// Invoked when an active connection is lost.
    pub on_disconnect_callback: Option<H>,
    /// Invoked when a connection attempt fails.
    pub on_connect_fail_callback: Option<H>,
    /// Cancelling this token ends connecting and reconnecting.
    pub cancel_token: Option<K>,
}

/// The callback in the slot, if any, accepts being called with no arguments.
pub open spec fn slot_callable<H: FnMut()>(slot: Option<H>) -> bool {
    slot matches Some(f) ==> call_requires(f, ())
}

/// What invoking the callback in a slot did: nothing for an empty slot, else one call.
pub open spec fn slot_invoked<H: FnMut()>(before: Option<H>, after: Option<H>) -> bool {
    &&& after == before
    &&& (before matches Some(f) ==> call_ensures(f, (), ()))
}

impl<H, G, K> ReconnectOptions<H, G, K> {
    /// By default no further connect attempts are made if the first one fails,
    /// no callbacks are registered, and the retry schedule is the default exponential backoff.
    pub fn new() -> (options: Self)
        ensures
            options.retries_to_attempt_fn is None,
            options.exit_if_first_connect_fails,
            options.on_connect_callback is None,
            options.on_disconnect_callback is None,
            options.on_connect_fail_callback is None,
            options.cancel_token is None,
    {
        ReconnectOptions {
            retries_to_attempt_fn: None,
            exit_if_first_connect_fails: true,
            on_connect_callback: None,
            on_disconnect_callback: None,
            on_connect_fail_callback: None,
            cancel_token: None,
        }
    }
}

impl<H: FnMut(), G, K> ReconnectOptions<H, G, K> {
    /// Replaces the generator of retry schedules; the other options are kept.
    pub fn with_retries_generator(self, retries_generator: G) -> (options: Self)
        ensures
            options.retries_to_attempt_fn == Some(retries_generator),
            options.exit_if_first_connect_fails == self.exit_if_first_connect_fails,
            options.on_connect_callback == self.on_connect_callback,
            options.on_disconnect_callback == self.on_disconnect_callback,
            options.on_connect_fail_callback == self.on_connect_fail_callback,
            options.cancel_token == self.cancel_token,
    {
        let mut options = self;
        options.retries_to_attempt_fn = Some(retries_generator);
        options
    }

    /// Sets whether a failed first connect attempt ends all attempts; the other options are kept.
    pub fn with_exit_if_first_connect_fails(self, value: bool) -> (options: Self)
        ensures
            options.retries_to_attempt_fn == self.retries_to_attempt_fn,
            options.exit_if_first_connect_fails == value,
            options.on_connect_callback == self.on_connect_callback,
            options.on_disconnect_callback == self.on_disconnect_callback,
            options.on_connect_fail_callback == self.on_connect_fail_callback,
            options.cancel_token == self.cancel_token,
    {
        let mut options = self;
        options.exit_if_first_connect_fails = value;
        options
    }

    /// Registers the callback invoked when a connection is established; the other options are kept.
    pub fn with_on_connect_callback(self, cb: H) -> (options: Self)
        ensures
            options.retries_to_attempt_fn == self.retries_to_attempt_fn,
            options.exit_if_first_connect_fails == self.exit_if_first_connect_fails,
            options.on_connect_callback == Some(cb),
            options.on_disconnect_callback == self.on_disconnect_callback,
            options.on_connect_fail_callback == self.on_connect_fail_callback,
            options.cancel_token == self.cancel_token,
    {
        let mut options = self;
        options.on_connect_callback = Some(cb);
        options
    }

    /// Registers the callback invoked when an active connection is lost; the other options are kept.
    pub fn with_on_disconnect_callback(self, cb: H) -> (options: Self)
        ensures
            options.retries_to_attempt_fn == self.retries_to_attempt_fn,
            options.exit_if_first_connect_fails == self.exit_if_first_connect_fails,
            options.on_connect_callback == self.on_connect_callback,
            options.on_disconnect_callback == Some(cb),
            options.on_connect_fail_callback == self.on_connect_fail_callback,
            options.cancel_token == self.cancel_token,
    {
        let mut options = self;
        options.on_disconnect_callback = Some(cb);
        options
    }

    /// Registers the callback invoked when a connection attempt fails; the other options are kept.
    pub fn with_on_connect_fail_callback(self, cb: H) -> (options: Self)
        ensures
            options.retries_to_attempt_fn == self.retries_to_attempt_fn,
            options.exit_if_first_connect_fails == self.exit_if_first_connect_fails,
            options.on_connect_callback == self.on_connect_callback,
            options.on_disconnect_callback == self.on_disconnect_callback,
            options.on_connect_fail_callback == Some(cb),
            options.cancel_token == self.cancel_token,
    {
        let mut options = self;
        options.on_connect_fail_callback = Some(cb);
        options
    }

    /// Sets the token whose cancellation ends connecting and reconnecting; the other options
    /// are kept.
    pub fn with_cancel_token(self, token: K) -> (options: Self)
        ensures
            options.retries_to_attempt_fn == self.retries_to_attempt_fn,
            options.exit_if_first_connect_fails == self.exit_if_first_connect_fails,
            options.on_connect_callback == self.on_connect_callback,
            options.on_disconnect_callback == self.on_disconnect_callback,
            options.on_connect_fail_callback == self.on_connect_fail_callback,
            options.cancel_token == Some(token),
    {
        let mut options = self;
        options.cancel_token = Some(token);
        options
    }

    /// Invokes the callback in the slot once, if there is one.
    fn callback(opt_callback: &mut Option<H>)
        requires
            slot_callable(*old(opt_callback)),
        ensures
            slot_invoked(*old(opt_callback), *final(opt_callback)),
    {
        if let Some(callback) = opt_callback {
            callback();
        }
    }

    /// Invokes the connect callback, if one is registered.
    pub fn connect_callback(&mut self)
        requires
            slot_callable(old(self).on_connect_callback),
        ensures
            slot_invoked(old(self).on_connect_callback, final(self).on_connect_callback),
            final(self).on_disconnect_callback == old(self).on_disconnect_callback,
            final(self).on_connect_fail_callback == old(self).on_connect_fail_callback,
            final(self).retries_to_attempt_fn == old(self).retries_to_attempt_fn,
            final(self).exit_if_first_connect_fails == old(self).exit_if_first_connect_fails,
            final(self).cancel_token == old(self).cancel_token,
    {
        Self::callback(&mut self.on_connect_callback)
    }

    /// Invokes the disconnect callback, if one is registered.
    pub fn disconnect_callback(&mut self)
        requires
            slot_callable(old(self).on_disconnect_callback),
        ensures
            slot_invoked(old(self).on_disconnect_callback, final(self).on_disconnect_callback),
            final(self).on_connect_callback == old(self).on_connect_callback,
            final(self).on_connect_fail_callback == old(self).on_connect_fail_callback,
            final(self).retries_to_attempt_fn == old(self).retries_to_attempt_fn,
            final(self).exit_if_first_connect_fails == old(self).exit_if_first_connect_fails,
            final(self).cancel_token == old(self).cancel_token,
    {
        Self::callback(&mut self.on_disconnect_callback)
    }

    /// Invokes the connect-fail callback, if one is registered.
    pub fn connect_fail_callback(&mut self)
        requires
            slot_callable(old(self).on_connect_fail_callback),
        ensures
            slot_invoked(old(self).on_connect_fail_callback, final(self).on_connect_fail_callback),
            final(self).on_connect_callback == old(self).on_connect_callback,
            final(self).on_disconnect_callback == old(self).on_disconnect_callback,
            final(self).retries_to_attempt_fn == old(self).retries_to_attempt_fn,
            final(self).exit_if_first_connect_fails == old(self).exit_if_first_connect_fails,
            final(self).cancel_token == old(self).cancel_token,
    {
        Self::callback(&mut self.on_connect_fail_callback)
    }
}

} // verus!
