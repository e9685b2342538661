//! The health of the database: a probe bounded in time, and the verdict it leads to.

use crate::sys::env::loader::{get_parsed_or_default, parsed_or};
use crate::sys::env::models::Environment;
use crate::sys::health::models::{ComponentHealth, ComponentHealthView, HealthCheck, HealthStatus};
use crate::text::{all_digits, decimal, digits_value, lemma_decimal_reads_back, to_decimal};
use vstd::prelude::*;
use vstd::string::*;

verus! {

/// How a probe that was given a bounded time ended.
#[derive(Debug)]
pub enum ProbeOutcome {
    /// The probe answered in time, after so many milliseconds.
    Completed { elapsed_ms: u128 },
    /// The probe answered in time, with an error.
    Failed { error: String },
    /// The time ran out before the probe answered. Whatever the probe does later
    /// changes nothing.
    TimedOut,
}

/// A [`ProbeOutcome`] with its error as a sequence of characters.
pub enum ProbeOutcomeView {
    Completed { elapsed_ms: u128 },
    Failed { error: Seq<char> },
    TimedOut,
}

impl View for ProbeOutcome {
    type V = ProbeOutcomeView;

    open spec fn view(&self) -> ProbeOutcomeView {
        match self {
            ProbeOutcome::Completed { elapsed_ms } => ProbeOutcomeView::Completed {
                elapsed_ms: *elapsed_ms,
            },
            ProbeOutcome::Failed { error } => ProbeOutcomeView::Failed { error: error@ },
            ProbeOutcome::TimedOut => ProbeOutcomeView::TimedOut,
        }
    }
}

/// One probe of the database: how it ended, and the seconds it was allowed.
#[derive(Debug)]
pub struct DatabaseProbe {
    pub outcome: ProbeOutcome,
    pub timeout_secs: u64,
}

/// The verdict on the database after a probe that was allowed `timeout_secs` seconds:
/// healthy with the time it took where the probe answered, unhealthy with the error
/// where it failed, unhealthy with the time allowed where that ran out.
pub open spec fn database_verdict(outcome: ProbeOutcomeView, timeout_secs: u64) -> ComponentHealthView {
    match outcome {
        ProbeOutcomeView::Completed { elapsed_ms } => ComponentHealthView {
            name: "Database"@,
            status: HealthStatus::Healthy,
            message: Some("Response time: "@ + decimal(elapsed_ms as nat) + "ms"@),
        },
        ProbeOutcomeView::Failed { error } => ComponentHealthView {
            name: "Database"@,
            status: HealthStatus::Unhealthy,
            message: Some("Query error: "@ + error),
        },
        ProbeOutcomeView::TimedOut => ComponentHealthView {
            name: "Database"@,
            status: HealthStatus::Unhealthy,
            message: Some(
                "Health check timeout after "@ + decimal(timeout_secs as nat) + " seconds"@,
            ),
        },
    }
}

impl HealthCheck for DatabaseProbe {
    open spec fn may_report(&self, verdict: ComponentHealthView) -> bool {
        verdict == database_verdict(self.outcome@, self.timeout_secs)
    }

    /// The verdict that the probe leads to.
    fn check(&self) -> (verdict: ComponentHealth)
        ensures
            verdict@ == database_verdict(self.outcome@, self.timeout_secs),
            verdict@.is_named(),
    {
        proof {
            reveal_strlit("Database");
        }
        let (status, message) = match &self.outcome {
            ProbeOutcome::Completed { elapsed_ms } => {
                let mut message = String::from_str("Response time: ");
                message.append(to_decimal(*elapsed_ms).as_str());
                message.append("ms");
                (HealthStatus::Healthy, message)
            },
            ProbeOutcome::Failed { error } => {
                let message = String::from_str("Query error: ").concat(error.as_str());
                (HealthStatus::Unhealthy, message)
            },
            ProbeOutcome::TimedOut => {
                let mut message = String::from_str("Health check timeout after ");
                message.append(to_decimal(self.timeout_secs as u128).as_str());
                message.append(" seconds");
                (HealthStatus::Unhealthy, message)
            },
        };
        ComponentHealth { name: String::from_str("Database"), status, message: Some(message) }
    }
}

/// The seconds that one probe of the database is allowed: what the variable
/// `DB_HEALTH_CHECK_TIMEOUT` says, or 5.
pub fn health_check_timeout_secs(env: &Environment) -> (secs: u64)
    ensures
        secs == parsed_or::<u64>(env@, "DB_HEALTH_CHECK_TIMEOUT"@, 5u64),
{
    get_parsed_or_default(env, "DB_HEALTH_CHECK_TIMEOUT", 5)
}

/// Whatever became of the probe, the verdict is on the component `Database`, and it
/// comes with a message.
pub proof fn lemma_verdict_is_named(outcome: ProbeOutcomeView, timeout_secs: u64)
    ensures
        database_verdict(outcome, timeout_secs).name == "Database"@,
        database_verdict(outcome, timeout_secs).is_named(),
        database_verdict(outcome, timeout_secs).message is Some,
{
    reveal_strlit("Database");
}

/// A probe that runs out of time makes the database unhealthy, and the message names
/// the seconds that were allowed: the digits in it read back as `timeout_secs`.
pub proof fn lemma_timeout_is_unhealthy(timeout_secs: u64)
    ensures
        database_verdict(ProbeOutcomeView::TimedOut, timeout_secs).status == HealthStatus::Unhealthy,
        database_verdict(ProbeOutcomeView::TimedOut, timeout_secs).message == Some(
            "Health check timeout after "@ + decimal(timeout_secs as nat) + " seconds"@,
        ),
        all_digits(decimal(timeout_secs as nat)),
        digits_value(decimal(timeout_secs as nat)) == timeout_secs,
{
    lemma_decimal_reads_back(timeout_secs as nat);
}

/// A probe that answers in time without an error makes the database healthy, and the
/// message holds the time it took as a number without sign: the digits in it read
/// back as `elapsed_ms`.
pub proof fn lemma_answer_is_healthy(elapsed_ms: u128, timeout_secs: u64)
    ensures
        database_verdict((ProbeOutcomeView::Completed { elapsed_ms }), timeout_secs).status
            == HealthStatus::Healthy,
        database_verdict((ProbeOutcomeView::Completed { elapsed_ms }), timeout_secs).message == Some(
            "Response time: "@ + decimal(elapsed_ms as nat) + "ms"@,
        ),
        all_digits(decimal(elapsed_ms as nat)),
        digits_value(decimal(elapsed_ms as nat)) == elapsed_ms,
{
    lemma_decimal_reads_back(elapsed_ms as nat);
}

} // verus!
