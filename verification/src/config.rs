//! Retry configuration.
use crate::codes::ErrorCode;
use vstd::prelude::*;

verus! {

/// How far a pause may stray from the calculated delay, as a fraction of it.
///
/// The fraction is a 32-bit floating-point number, kept as its bit pattern. The
/// retry logic never looks into it and only hands it on to the jitter function.
#[derive(Clone, Copy, Debug, PartialEq, Eq, Structural)]
pub struct JitterAmount {
    pub bits: u32,
}

/// How often, after which pauses and on which errors to retry.
#[derive(Debug, PartialEq, Eq)]
pub struct Retry {
    /// The most retries that follow the first attempt.
    pub max_retries: usize,
    /// The delay in milliseconds from which the pauses grow.
    pub delay: u64,
    /// How far a pause may stray from the calculated delay.
    pub jitter: JitterAmount,
    /// The error codes to retry on, where the defaults do not suffice.
    pub retry_on_errors: Option<Vec<ErrorCode>>,
}

/// What a [`Retry`] says, over mathematical values.
pub struct RetryView {
    pub max_retries: nat,
    pub delay: nat,
    pub jitter: JitterAmount,
    pub retry_on_errors: Option<Seq<ErrorCode>>,
}

impl View for Retry {
    type V = RetryView;

    open spec fn view(&self) -> RetryView {
        RetryView {
            max_retries: self.max_retries as nat,
            delay: self.delay as nat,
            jitter: self.jitter,
            retry_on_errors: match self.retry_on_errors {
                Some(listed) => Some(listed@),
                None => None,
            },
        }
    }
}

impl Clone for Retry {
    fn clone(&self) -> (copy: Self)
        ensures
            copy@ == self@,
    {
        let retry_on_errors = match &self.retry_on_errors {
            Some(listed) => {
                let copied = listed.clone();
                assert(copied@ =~= listed@);
                Some(copied)
            },
            None => None,
        };
        Retry {
            max_retries: self.max_retries,
            delay: self.delay,
            jitter: self.jitter,
            retry_on_errors,
        }
    }
}

/// The view of a configuration shows each of its settings as it is.
pub proof fn law_view_shows_the_settings(config: Retry)
    ensures
        config@.max_retries == config.max_retries,
        config@.delay == config.delay,
        config@.jitter.bits == config.jitter.bits,
        config@.retry_on_errors is Some <==> config.retry_on_errors is Some,
        config.retry_on_errors matches Some(listed) ==> config@.retry_on_errors == Some(listed@),
{
}

/// A copy of a configuration has the same settings, with the same error codes in
/// the same order.
pub proof fn law_copy_has_the_same_settings(config: Retry, copy: Retry)
    requires
        call_ensures(Retry::clone, (&config,), copy),
    ensures
        copy.max_retries == config.max_retries,
        copy.delay == config.delay,
        copy.jitter.bits == config.jitter.bits,
        copy.retry_on_errors is Some <==> config.retry_on_errors is Some,
        config.retry_on_errors matches Some(listed) ==> (copy.retry_on_errors matches Some(copied)
            && copied@ == listed@),
        call_requires(Retry::clone, (&config,)),
{
}

} // verus!
