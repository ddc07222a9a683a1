//! The startup policy for the record store connection: a bounded number of
//! attempts with a fixed pause between them, after which the failure is
//! fatal. The connecting itself, and the idempotent schema creation that
//! follows a successful connection, run outside the library.

use vstd::prelude::*;

verus! {

/// How many times a store connection is attempted before giving up.
pub const DB_CONNECT_ATTEMPTS: u32 = 10;

/// Seconds waited between two connection attempts.
pub const DB_RETRY_DELAY_SECS: u64 = 5;

/// Counts down the connection attempts the startup may still make.
pub struct StartupRetry {
    pub attempts_left: u32,
}

impl StartupRetry {
    /// A fresh budget of `DB_CONNECT_ATTEMPTS` attempts.
    pub fn new() -> (r: Self)
        ensures
            r.attempts_left == DB_CONNECT_ATTEMPTS,
    {
        StartupRetry { attempts_left: DB_CONNECT_ATTEMPTS }
    }

    /// Asks to make one more attempt: grants it while the budget lasts,
    /// spending one; once it returns `false` the startup must fail.
    pub fn begin_attempt(&mut self) -> (go: bool)
        ensures
            go <==> old(self).attempts_left > 0,
            old(self).attempts_left > 0 ==> final(self).attempts_left == old(self).attempts_left
                - 1,
            old(self).attempts_left == 0 ==> *final(self) == *old(self),
    {
        if self.attempts_left > 0 {
            self.attempts_left = self.attempts_left - 1;
            true
        } else {
            false
        }
    }
}

} // verus!
