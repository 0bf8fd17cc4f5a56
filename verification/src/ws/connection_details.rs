use std::time::Instant;
use vstd::prelude::*;

verus! {

#[verifier::external_type_specification]
#[verifier::external_body]
pub struct ExInstant(Instant);

/// Calls `std::time::Instant::now`. It reads the monotonic clock, so nothing is
/// stated of the instant it returns.
#[verifier::external_body]
fn instant_now() -> Instant {
    Instant::now()
}

/// How long to wait before the next attempt to reach the websocket server.
#[derive(Debug, Clone, Copy, PartialEq, Eq)]
pub enum Wait {
    Short,
    Long,
}

/// Bookkeeping of the websocket connection attempts.
#[derive(Debug)]
pub struct ConnectionDetails {
    pub count: usize,
    wait: Wait,
    connection_instant: Option<Instant>,
    is_connected: bool,
}

/// The abstract state of a [`ConnectionDetails`].
pub struct ConnectionView {
    pub count: nat,
    pub wait: Wait,
    pub has_instant: bool,
    pub connected: bool,
}

/// Number of consecutive failed attempts from which the long wait is used.
pub const LONG_WAIT_THRESHOLD: usize = 20;

/// Seconds slept before a retry under the short wait.
pub const SHORT_WAIT_SECS: u64 = 5;

/// Seconds slept before a retry under the long wait.
pub const LONG_WAIT_SECS: u64 = 60;

impl View for ConnectionDetails {
    type V = ConnectionView;

    closed spec fn view(&self) -> ConnectionView {
        ConnectionView {
            count: self.count as nat,
            wait: self.wait,
            has_instant: self.connection_instant is Some,
            connected: self.is_connected,
        }
    }
}

impl ConnectionView {
    /// The delay, in seconds, before the next attempt: none before the first.
    pub open spec fn delay(self) -> Option<u64> {
        if self.count == 0 {
            None
        } else {
            match self.wait {
                Wait::Short => Some(SHORT_WAIT_SECS),
                Wait::Long => Some(LONG_WAIT_SECS),
            }
        }
    }

    /// The relation between attempt count and wait that every reachable state keeps:
    /// the wait is long exactly when at least the threshold number of attempts failed,
    /// and a connection instant is recorded exactly while connected.
    pub open spec fn well_formed(self) -> bool {
        &&& (self.wait == Wait::Long <==> self.count >= LONG_WAIT_THRESHOLD)
        &&& (self.has_instant <==> self.connected)
        &&& (self.connected ==> self.count == 1)
    }
}

/// In every reachable state the reconnect delay follows the number of attempts:
/// none before the first, 60 seconds from the twentieth failed attempt on, else
/// 5 seconds.
pub proof fn lemma_delay_follows_attempts(v: ConnectionView)
    requires
        v.well_formed(),
    ensures
        v.delay() == if v.count == 0 {
            None
        } else if v.count >= LONG_WAIT_THRESHOLD {
            Some(LONG_WAIT_SECS)
        } else {
            Some(SHORT_WAIT_SECS)
        },
{
}

impl ConnectionDetails {
    pub fn new() -> (res: Self)
        ensures
            res@.count == 0,
            res@.wait == Wait::Short,
            !res@.has_instant,
            !res@.connected,
            res@.well_formed(),
    {
        ConnectionDetails { count: 0, wait: Wait::Short, connection_instant: None, is_connected: false }
    }

    /// increase attempt count, and set delay to long if 20+ attempts
    /// Set is_connected to 0 and time to none
    pub fn fail_connect(&mut self)
        requires
            old(self)@.count < usize::MAX,
        ensures
            final(self)@.count == old(self)@.count + 1,
            final(self)@.wait == (if final(self)@.count >= LONG_WAIT_THRESHOLD {
                Wait::Long
            } else {
                old(self)@.wait
            }),
            !final(self)@.has_instant,
            !final(self)@.connected,
            old(self)@.well_formed() ==> final(self)@.well_formed(),
    {
        self.count = self.count + 1;
        self.is_connected = false;
        self.connection_instant = None;
        if self.count >= LONG_WAIT_THRESHOLD {
            self.wait = Wait::Long;
        }
    }

    /// delay the reconnect attempt by x seconds, depending on how many attempts already made:
    /// none while no attempt has been made, else 5 or 60 seconds by the wait.
    pub fn reconnect_delay(&self) -> (res: Option<u64>)
        ensures
            res == self@.delay(),
    {
        if self.count == 0 {
            return None;
        }
        match self.wait {
            Wait::Short => Some(SHORT_WAIT_SECS),
            Wait::Long => Some(LONG_WAIT_SECS),
        }
    }

    /// called on each connect, to reset connection, count etc
    pub fn valid_connect(&mut self)
        ensures
            final(self)@.count == 1,
            final(self)@.wait == Wait::Short,
            final(self)@.has_instant,
            final(self)@.connected,
            final(self)@.well_formed(),
    {
        self.wait = Wait::Short;
        self.count = 1;
        self.is_connected = true;
        self.connection_instant = Some(instant_now());
    }

    /// Whether the last attempt succeeded.
    pub fn is_connected(&self) -> (res: bool)
        ensures
            res == self@.connected,
    {
        self.is_connected
    }
}

} // verus!
