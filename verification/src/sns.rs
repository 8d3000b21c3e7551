//! The parameters of a create-service-nervous-system proposal that the
//! token deployment flow reads, and the swap scheduling arithmetic.
//!
//! The proposal types are held with the fields this flow reads; every
//! quantity is an optional, the way the wire format leaves every field
//! optional.

use vstd::prelude::*;

verus! {

pub const ONE_DAY_SECONDS: u64 = 86400;

/// A token amount in e8s.
#[derive(Clone, Copy, Debug)]
pub struct Tokens {
    pub e8s: Option<u64>,
}

/// A span of time in seconds.
#[derive(Clone, Copy, Debug)]
pub struct TimeSpan {
    pub seconds: Option<u64>,
}

/// A time of day, in seconds after midnight UTC.
#[derive(Clone, Copy, Debug)]
pub struct GlobalTimeOfDay {
    pub seconds_after_utc_midnight: Option<u64>,
}

/// The swap share of the initial token distribution.
#[derive(Clone, Copy, Debug)]
pub struct SwapDistribution {
    pub total: Option<Tokens>,
}

/// The initial token distribution of a proposal.
#[derive(Clone, Copy, Debug)]
pub struct InitialTokenDistribution {
    pub swap_distribution: Option<SwapDistribution>,
}

/// The ledger parameters of a proposal.
#[derive(Clone, Debug)]
pub struct LedgerParameters {
    pub transaction_fee: Option<Tokens>,
    pub token_name: Option<String>,
    pub token_symbol: Option<String>,
}

/// The governance parameters of a proposal.
#[derive(Clone, Copy, Debug)]
pub struct GovernanceParameters {
    pub neuron_minimum_stake: Option<Tokens>,
}

/// A create-service-nervous-system proposal, with the parameter groups the
/// deployment flow reads.
#[derive(Clone, Debug)]
pub struct CreateServiceNervousSystem {
    pub name: Option<String>,
    pub description: Option<String>,
    pub url: Option<String>,
    pub initial_token_distribution: Option<InitialTokenDistribution>,
    pub ledger_parameters: Option<LedgerParameters>,
    pub governance_parameters: Option<GovernanceParameters>,
}

impl CreateServiceNervousSystem {
    /// The number of tokens put up for swap, when the proposal names one.
    pub fn sns_token_e8s(&self) -> (r: Option<u64>)
        ensures
            r == (match self.initial_token_distribution {
                Some(itd) => match itd.swap_distribution {
                    Some(sd) => match sd.total {
                        Some(t) => t.e8s,
                        None => None::<u64>,
                    },
                    None => None::<u64>,
                },
                None => None::<u64>,
            }),
    {
        match &self.initial_token_distribution {
            Some(itd) => match &itd.swap_distribution {
                Some(sd) => match &sd.total {
                    Some(t) => t.e8s,
                    None => None,
                },
                None => None,
            },
            None => None,
        }
    }

    /// The ledger transaction fee, when the proposal names one.
    pub fn transaction_fee_e8s(&self) -> (r: Option<u64>)
        ensures
            r == (match self.ledger_parameters {
                Some(lp) => match lp.transaction_fee {
                    Some(t) => t.e8s,
                    None => None::<u64>,
                },
                None => None::<u64>,
            }),
    {
        match &self.ledger_parameters {
            Some(lp) => match &lp.transaction_fee {
                Some(t) => t.e8s,
                None => None,
            },
            None => None,
        }
    }

    /// The minimum neuron stake, when the proposal names one.
    pub fn neuron_minimum_stake_e8s(&self) -> (r: Option<u64>)
        ensures
            r == (match self.governance_parameters {
                Some(gp) => match gp.neuron_minimum_stake {
                    Some(t) => t.e8s,
                    None => None::<u64>,
                },
                None => None::<u64>,
            }),
    {
        match &self.governance_parameters {
            Some(gp) => match &gp.neuron_minimum_stake {
                Some(t) => t.e8s,
                None => None,
            },
            None => None,
        }
    }

    /// Computes when the token swap starts and when it is due. The swap
    /// starts at the first `start_time_of_day` that falls more than 24
    /// hours after the swap was approved — either on the day after the
    /// approval's midnight or the day after that — and is due `duration`
    /// after it starts. A missing time of day or duration, or a start or
    /// due time past the representable range, is an error.
    pub fn swap_start_and_due_timestamps(
        start_time_of_day: GlobalTimeOfDay,
        duration: TimeSpan,
        swap_approved_timestamp_seconds: u64,
    ) -> (r: Result<(u64, u64), String>)
        requires
            swap_approved_timestamp_seconds + 2 * ONE_DAY_SECONDS + (
            match start_time_of_day.seconds_after_utc_midnight {
                Some(s) => s as int,
                None => 0int,
            }) <= u64::MAX,
        ensures
            ({
                let midnight = swap_approved_timestamp_seconds - (swap_approved_timestamp_seconds
                    % ONE_DAY_SECONDS) + ONE_DAY_SECONDS;
                match (start_time_of_day.seconds_after_utc_midnight, duration.seconds) {
                    (Some(tod), Some(dur)) => {
                        let first = midnight + tod;
                        let second = midnight + ONE_DAY_SECONDS + tod;
                        let begin = if first > swap_approved_timestamp_seconds + ONE_DAY_SECONDS {
                            first
                        } else {
                            second
                        };
                        &&& (begin + dur <= u64::MAX ==> r == Ok::<(u64, u64), String>(
                            ((begin as u64), ((begin + dur) as u64)),
                        ))
                        &&& (begin + dur > u64::MAX ==> r is Err)
                    },
                    _ => r is Err,
                }
            }),
    {
        let tod = match start_time_of_day.seconds_after_utc_midnight {
            Some(t) => t,
            None => {
                return Err(String::from_str("`seconds_after_utc_midnight` should not be None"));
            },
        };
        let dur = match duration.seconds {
            Some(d) => d,
            None => {
                return Err(String::from_str("`seconds` should not be None"));
            },
        };
        let midnight_after_approval = swap_approved_timestamp_seconds - (
        swap_approved_timestamp_seconds % ONE_DAY_SECONDS) + ONE_DAY_SECONDS;
        let first = midnight_after_approval + tod;
        let swap_start = if first > swap_approved_timestamp_seconds + ONE_DAY_SECONDS {
            first
        } else {
            midnight_after_approval + ONE_DAY_SECONDS + tod
        };
        let swap_due = match swap_start.checked_add(dur) {
            Some(d) => d,
            None => {
                return Err(String::from_str("swap would be due past the representable range"));
            },
        };
        proof {
            assert(swap_start > swap_approved_timestamp_seconds + ONE_DAY_SECONDS);
        }
        Ok((swap_start, swap_due))
    }
}

/// Divides `dividend` by `divisor` only when it divides evenly: a zero
/// divisor or a non-zero remainder is reported as an error whose message
/// names the field being validated.
pub fn divide_perfectly(field_name: &str, dividend: u64, divisor: u64) -> (r: Result<u64, String>)
    ensures
        divisor == 0 ==> (r matches Err(m) && m@
            == "attempted to divide by zero while validating "@ + field_name@),
        divisor != 0 && dividend % divisor == 0 ==> r == Ok::<u64, String>(dividend / divisor),
        divisor != 0 && dividend % divisor != 0 ==> (r matches Err(m) && m@ == field_name@
            + " is supposed to contain a value that is evenly divisible, but it is not"@),
{
    if divisor == 0 {
        let mut msg = String::from_str("attempted to divide by zero while validating ");
        msg.append(field_name);
        Err(msg)
    } else if dividend % divisor == 0 {
        Ok(dividend / divisor)
    } else {
        let mut msg = String::from_str(field_name);
        msg.append(" is supposed to contain a value that is evenly divisible, but it is not");
        Err(msg)
    }
}

} // verus!
