//! The account of a transfer: how much is expected, how much has arrived and
//! how fast.

use std::time::Duration;
use std::time::Instant;
use vstd::prelude::*;

verus! {

/// `std::time::Instant`, a reading of the monotonic clock. Nothing is known of
/// what a value holds.
#[verifier::external_type_specification]
#[verifier::external_body]
pub struct ExInstant(Instant);

/// `Instant::now` reads the clock: nothing is claimed of what it returns.
pub assume_specification[ Instant::now ]() -> (now: Instant);

/// `Instant::elapsed` is the time since the reading was taken: nothing is
/// claimed of what it returns.
pub assume_specification[ Instant::elapsed ](start: &Instant) -> (elapsed: Duration);

/// `Duration::as_secs` is the number of whole seconds in the duration: nothing
/// is claimed of what it returns.
pub assume_specification[ Duration::as_secs ](duration: &Duration) -> (secs: u64);

/// What a [`TransferStats`] stands for: two byte counts.
pub ghost struct Transfer {
    /// The bytes that the whole transfer is expected to bring.
    pub total_bytes: nat,
    /// The bytes that have arrived so far.
    pub downloaded: nat,
}

impl Transfer {
    /// The account after `bytes` more bytes have arrived.
    pub open spec fn update(self, bytes: nat) -> Transfer {
        Transfer { total_bytes: self.total_bytes, downloaded: self.downloaded + bytes }
    }

    /// The bytes still to come. Negative once more has arrived than was
    /// expected.
    pub open spec fn left(self) -> int {
        self.total_bytes - self.downloaded
    }

    /// The rate in bytes per second after `elapsed_secs` whole seconds. A
    /// transfer younger than one second counts as one second old.
    pub open spec fn speed(self, elapsed_secs: nat) -> nat {
        if elapsed_secs == 0 {
            self.downloaded
        } else {
            self.downloaded / elapsed_secs
        }
    }

    /// The seconds that the rest will take at the rate reached after
    /// `elapsed_secs` seconds, or `None` while that rate is zero. Nothing is
    /// left once more has arrived than was expected.
    pub open spec fn eta(self, elapsed_secs: nat) -> Option<nat> {
        if self.speed(elapsed_secs) == 0 {
            None
        } else if self.downloaded >= self.total_bytes {
            Some(0)
        } else {
            Some(((self.total_bytes - self.downloaded) / (self.speed(elapsed_secs) as int)) as nat)
        }
    }
}

/// Accumulates overall transfer statistics.
pub struct TransferStats {
    /// The bytes that the whole transfer is expected to bring.
    pub total_bytes: u64,
    /// The bytes that have arrived so far.
    pub downloaded: u64,
    /// When the account was started.
    pub start: Instant,
}

impl View for TransferStats {
    type V = Transfer;

    open spec fn view(&self) -> Transfer {
        Transfer { total_bytes: self.total_bytes as nat, downloaded: self.downloaded as nat }
    }
}

impl TransferStats {
    /// Starts the account of a transfer of `total_bytes` bytes, and its clock.
    pub fn new(total_bytes: u64) -> (stats: Self)
        ensures
            stats@ == (Transfer { total_bytes: total_bytes as nat, downloaded: 0 }),
    {
        Self { total_bytes, downloaded: 0, start: Instant::now() }
    }

    /// Counts `bytes` more bytes as arrived.
    pub fn update(&mut self, bytes: u64)
        requires
            old(self).downloaded + bytes <= u64::MAX,
        ensures
            final(self)@ == old(self)@.update(bytes as nat),
            final(self).start == old(self).start,
        no_unwind
    {
        self.downloaded = self.downloaded + bytes;
    }

    /// The whole seconds since the account was started.
    pub fn elapsed_secs(&self) -> (secs: u64) {
        let elapsed = self.start.elapsed();
        elapsed.as_secs()
    }

    /// The rate in bytes per second after `elapsed_secs` whole seconds.
    pub fn speed_after(&self, elapsed_secs: u64) -> (speed: u64)
        ensures
            speed == self@.speed(elapsed_secs as nat),
    {
        let secs: u64 = if elapsed_secs == 0 { 1 } else { elapsed_secs };
        self.downloaded / secs
    }

    /// Returns overall speed in bytes per second, by the clock.
    pub fn speed(&self) -> (speed: u64)
        ensures
            exists|elapsed_secs: nat| speed == self@.speed(elapsed_secs),
    {
        let secs = self.elapsed_secs();
        self.speed_after(secs)
    }

    /// The bytes still to come.
    pub fn left(&self) -> (left: u64)
        requires
            self.downloaded <= self.total_bytes,
        ensures
            left == self@.left(),
    {
        self.total_bytes - self.downloaded
    }

    /// The seconds that the rest will take at the rate reached after
    /// `elapsed_secs` whole seconds.
    pub fn eta_after(&self, elapsed_secs: u64) -> (eta: Option<u64>)
        ensures
            match eta {
                Some(secs) => self@.eta(elapsed_secs as nat) == Some(secs as nat),
                None => self@.eta(elapsed_secs as nat) is None,
            },
    {
        let speed = self.speed_after(elapsed_secs);
        if speed > 0 {
            let remaining = self.total_bytes.saturating_sub(self.downloaded);
            Some(remaining / speed)
        } else {
            None
        }
    }

    /// Estimated seconds remaining for overall transfer, by the clock.
    pub fn eta(&self) -> (eta: Option<u64>)
        ensures
            exists|elapsed_secs: nat|
                match eta {
                    Some(secs) => self@.eta(elapsed_secs) == Some(secs as nat),
                    None => self@.eta(elapsed_secs) is None,
                },
    {
        let secs = self.elapsed_secs();
        self.eta_after(secs)
    }
}

/// After two updates of a new account the bytes still to come are the total
/// less both, and the bytes that have arrived are the two together, beside
/// an unchanged total. On any account two updates take both from what is
/// left.
pub proof fn law_two_updates(account: Transfer, b1: nat, b2: nat)
    ensures
        account.update(b1).update(b2).left() == account.left() - b1 - b2,
        account.update(b1).update(b2).total_bytes == account.total_bytes,
        account.downloaded == 0 ==> account.update(b1).update(b2).left() == account.total_bytes
            - b1 - b2,
        account.downloaded == 0 ==> account.update(b1).update(b2).downloaded == b1 + b2,
{
}

/// The rate is defined at every age of the account, at no seconds as at one
/// second, and is never more than what has arrived: that of a new account
/// is zero.
pub proof fn law_speed_is_defined(account: Transfer, elapsed_secs: nat)
    ensures
        account.speed(0) == account.speed(1),
        account.speed(elapsed_secs) <= account.downloaded,
        account.downloaded == 0 ==> account.speed(elapsed_secs) == 0,
{
    if elapsed_secs > 0 {
        assert(account.downloaded / elapsed_secs <= account.downloaded) by (nonlinear_arith)
            requires
                elapsed_secs > 0,
        ;
        assert(0nat / elapsed_secs == 0) by (nonlinear_arith)
            requires
                elapsed_secs > 0,
        ;
    }
}

} // verus!
