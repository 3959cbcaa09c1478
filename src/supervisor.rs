//! The reconnect supervisor: each round races one session attempt against
//! one value from the price feed, then waits a fixed delay and starts again.

use vstd::prelude::*;
use crate::session::{is_terminal, next_step, Phase, SessionAction, SessionEvent, TransportError};

verus! {

/// The wait between two rounds, in milliseconds.
pub const RETRY_DELAY_MS: u64 = 500;

/// The largest scale a quote may have.
pub const MAX_SCALE: u32 = 28;

/// The bound on a quote's mantissa: its magnitude stays below 2^96.
pub const MANTISSA_BOUND: i128 = 79228162514264337593543950336;

/// A decimal price from the feed: `mantissa / 10^scale`.
#[derive(Clone, Copy, Debug, PartialEq, Eq, Structural)]
pub struct Quote {
    mantissa: i128,
    scale: u32,
}

impl Quote {
    /// Holds of a quote within the range of the feed's decimal type.
    pub open spec fn valid(mantissa: int, scale: int) -> bool {
        -MANTISSA_BOUND < mantissa < MANTISSA_BOUND && 0 <= scale <= MAX_SCALE
    }

    /// The quote's mantissa.
    pub closed spec fn spec_mantissa(&self) -> int {
        self.mantissa as int
    }

    /// The quote's scale: the number of decimal places.
    pub closed spec fn spec_scale(&self) -> int {
        self.scale as int
    }

    #[verifier::type_invariant]
    spec fn in_range(&self) -> bool {
        Self::valid(self.mantissa as int, self.scale as int)
    }

    /// The quote `mantissa / 10^scale`, when it is in range.
    pub fn new(mantissa: i128, scale: u32) -> (r: Option<Quote>)
        ensures
            r is Some <==> Self::valid(mantissa as int, scale as int),
            r matches Some(q) ==> q.spec_mantissa() == mantissa && q.spec_scale() == scale,
    {
        if -MANTISSA_BOUND < mantissa && mantissa < MANTISSA_BOUND && scale <= MAX_SCALE {
            Some(Quote { mantissa, scale })
        } else {
            None
        }
    }

    /// The quote's mantissa; its magnitude is below 2^96.
    pub fn mantissa(&self) -> (r: i128)
        ensures
            r == self.spec_mantissa(),
            -MANTISSA_BOUND < r < MANTISSA_BOUND,
    {
        proof {
            use_type_invariant(self);
        }
        self.mantissa
    }

    /// The quote's scale; at most 28.
    pub fn scale(&self) -> (r: u32)
        ensures
            r == self.spec_scale(),
            r <= MAX_SCALE,
    {
        proof {
            use_type_invariant(self);
        }
        self.scale
    }
}

/// Which side of a round finished first.
#[derive(Debug, PartialEq, Eq)]
pub enum RaceOutcome {
    /// The feed delivered a quote.
    FeedValue(Quote),
    /// The feed has no producer left.
    FeedClosed,
    /// The session attempt ended, cleanly or with an error.
    SessionEnded(Result<(), TransportError>),
}

/// What to do at the end of a round.
#[derive(Clone, Debug, PartialEq, Eq)]
pub struct Decision {
    /// An attempt's error to report, if the attempt failed.
    pub report: Option<TransportError>,
    /// How long to wait before the next round.
    pub delay_ms: u64,
}

/// The error a round reports.
pub open spec fn reported(outcome: RaceOutcome) -> Option<TransportError> {
    match outcome {
        RaceOutcome::SessionEnded(Err(e)) => Some(e),
        _ => None,
    }
}

/// The decision that ends a round with `outcome`.
pub open spec fn round_decision(outcome: RaceOutcome) -> Decision {
    Decision { report: reported(outcome), delay_ms: RETRY_DELAY_MS }
}

/// The supervisor's state across rounds.
#[derive(Debug)]
pub struct Supervisor {
    latest_quote: Option<Quote>,
}

impl Supervisor {
    /// The most recent quote received, if any.
    pub closed spec fn spec_latest_quote(&self) -> Option<Quote> {
        self.latest_quote
    }

    /// A supervisor that has seen no quote.
    pub fn new() -> (r: Supervisor)
        ensures
            r.spec_latest_quote() is None,
    {
        Supervisor { latest_quote: None }
    }

    /// The most recent quote received, if any.
    pub fn latest_quote(&self) -> (r: Option<Quote>)
        ensures
            r == self.spec_latest_quote(),
    {
        self.latest_quote
    }

    /// Ends a round: keeps a quote that arrived, reports a failed attempt,
    /// and always waits the fixed delay before the next round.
    pub fn finish_round(&mut self, outcome: RaceOutcome) -> (d: Decision)
        ensures
            d == round_decision(outcome),
            final(self).spec_latest_quote() == (match outcome {
                RaceOutcome::FeedValue(q) => Some(q),
                _ => old(self).spec_latest_quote(),
            }),
    {
        let report = match outcome {
            RaceOutcome::FeedValue(q) => {
                self.latest_quote = Some(q);
                None
            },
            RaceOutcome::FeedClosed => None,
            RaceOutcome::SessionEnded(res) => match res {
                Ok(()) => None,
                Err(e) => Some(e),
            },
        };
        Decision { report, delay_ms: RETRY_DELAY_MS }
    }
}

/// A transport error at any point of an attempt ends that attempt with the
/// error, the round then reports it and waits the fixed delay, and the next
/// attempt starts from scratch and sends a login of its own once connected.
pub proof fn lemma_failed_attempt_retried(p: Phase, e: TransportError)
    requires
        !is_terminal(p),
    ensures
        next_step(p, SessionEvent::Failed(e)) == (Phase::Errored, SessionAction::Fail(e)),
        round_decision(RaceOutcome::SessionEnded(Err(e))) == (Decision {
            report: Some(e),
            delay_ms: RETRY_DELAY_MS,
        }),
        next_step(Phase::Connecting, SessionEvent::Connected) == (
        Phase::Connecting,
        SessionAction::SendLogin,
        ),
{
}

/// Every round, whichever side finished it, ends in the fixed delay; only a
/// failed attempt is reported.
pub proof fn lemma_every_round_waits(outcome: RaceOutcome)
    ensures
        round_decision(outcome).delay_ms == RETRY_DELAY_MS,
        round_decision(outcome).report is Some <==> outcome matches RaceOutcome::SessionEnded(
            Err(_),
        ),
{
}

} // verus!
