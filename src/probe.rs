//! The decisions of one host's prober: what each echo request carries, which
//! reply counts as a match, and how the outcome is recorded.
//!
//! The caller runs the loop: on each tick it sends the request that
//! `request` gives, waits for a reply or the timeout, and hands what came
//! back to `on_reply`.

use vstd::prelude::*;

use crate::state::{Address, SharedState};

verus! {

/// Relies on rand::random: a `u16` drawn from the thread-local generator.
/// Nothing is known of its value.
#[verifier::external_body]
fn random_identifier() -> (r: u16) {
    rand::random::<u16>()
}

/// The sequence number that follows `seq`, wrapping to zero after the
/// largest one.
pub open spec fn next_sequence(seq: u16) -> u16 {
    if seq == u16::MAX {
        0
    } else {
        (seq + 1) as u16
    }
}

/// The probe session of one host: its identifier and the sequence number of
/// the next echo request.
pub struct Prober {
    identifier: u16,
    sequence: u16,
}

impl Prober {
    pub closed spec fn spec_identifier(&self) -> u16 {
        self.identifier
    }

    pub closed spec fn spec_sequence(&self) -> u16 {
        self.sequence
    }

    /// A session with a random identifier, starting at sequence number zero.
    pub fn new() -> (r: Prober)
        ensures
            r.spec_sequence() == 0,
    {
        Prober::with_identifier(random_identifier())
    }

    /// A session with the given identifier, starting at sequence number zero.
    pub fn with_identifier(identifier: u16) -> (r: Prober)
        ensures
            r.spec_identifier() == identifier,
            r.spec_sequence() == 0,
    {
        Prober { identifier, sequence: 0 }
    }

    pub fn identifier(&self) -> (r: u16)
        ensures
            r == self.spec_identifier(),
    {
        self.identifier
    }

    pub fn sequence(&self) -> (r: u16)
        ensures
            r == self.spec_sequence(),
    {
        self.sequence
    }

    /// The identifier and sequence number that the next echo request carries.
    pub fn request(&self) -> (r: (u16, u16))
        ensures
            r == (self.spec_identifier(), self.spec_sequence()),
    {
        (self.identifier, self.sequence)
    }

    /// Whether a reply matches the request last sent: a reply carrying both
    /// its identifier and its sequence number. `None` stands for a timeout or
    /// a transport error.
    pub fn is_match(&self, reply: Option<(u16, u16)>) -> (r: bool)
        ensures
            r == (reply == Some((self.spec_identifier(), self.spec_sequence()))),
    {
        match reply {
            Some((id, seq)) => id == self.identifier && seq == self.sequence,
            None => false,
        }
    }

    /// Handles the outcome of the probe of `ip`: a matching reply is recorded
    /// as a success, anything else as a failure, and the sequence number
    /// moves on. Returns whether `ip` is tracked, that is whether probing it
    /// goes on.
    pub fn on_reply(&mut self, state: &mut SharedState, ip: &Address, reply: Option<(u16, u16)>) -> (r: bool)
        requires
            old(state).wf(),
        ensures
            final(state).wf(),
            final(state)@ == old(state)@.record(
                *ip,
                reply == Some((old(self).spec_identifier(), old(self).spec_sequence())),
            ),
            r == old(state)@.hosts.contains_key(*ip),
            final(self).spec_identifier() == old(self).spec_identifier(),
            final(self).spec_sequence() == next_sequence(old(self).spec_sequence()),
    {
        let still_tracked = if self.is_match(reply) {
            state.succ_ping(ip)
        } else {
            state.fail_ping(ip)
        };
        self.sequence = if self.sequence == u16::MAX {
            0
        } else {
            self.sequence + 1
        };
        still_tracked
    }
}

} // verus!
