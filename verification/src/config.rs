use vstd::prelude::*;

verus! {

/// How requests are scheduled for one run: either paced at a fixed rate for
/// a fixed wall-clock duration, or a fixed number of workers each issuing a
/// fixed number of sequential requests.
#[derive(Clone, Copy, Debug, PartialEq, Eq, Structural)]
pub enum Policy {
    /// Submit requests at `rate` per second for `duration_secs` seconds.
    RatePaced { rate: u16, duration_secs: u64 },
    /// Launch `concurrency` workers, each performing `iterations` requests.
    FixedIterations { concurrency: usize, iterations: usize },
}

/// The immutable configuration of one run: the target URL, the per-request
/// timeout, and the scheduling policy.
#[derive(Clone, Debug)]
pub struct RunConfig {
    pub url: String,
    pub timeout_secs: u64,
    pub policy: Policy,
}

/// Why a configuration was rejected: each numeric parameter must be a
/// positive integer.
#[derive(Clone, Copy, Debug, PartialEq, Eq, Structural)]
pub enum ValidationError {
    ZeroTimeout,
    ZeroRate,
    ZeroDuration,
    ZeroConcurrency,
    ZeroIterations,
}

/// A configuration is valid exactly when its timeout and every numeric
/// parameter of its policy are positive.
pub open spec fn spec_valid(c: RunConfig) -> bool {
    &&& c.timeout_secs > 0
    &&& match c.policy {
        Policy::RatePaced { rate, duration_secs } => rate > 0 && duration_secs > 0,
        Policy::FixedIterations { concurrency, iterations } => concurrency > 0 && iterations > 0,
    }
}

/// What `validate` returns: the first zero parameter found, checking the
/// timeout first and then the policy's parameters in declaration order.
pub open spec fn spec_validate(c: RunConfig) -> Result<(), ValidationError> {
    if c.timeout_secs == 0 {
        Err(ValidationError::ZeroTimeout)
    } else {
        match c.policy {
            Policy::RatePaced { rate, duration_secs } => {
                if rate == 0 {
                    Err(ValidationError::ZeroRate)
                } else if duration_secs == 0 {
                    Err(ValidationError::ZeroDuration)
                } else {
                    Ok(())
                }
            }
            Policy::FixedIterations { concurrency, iterations } => {
                if concurrency == 0 {
                    Err(ValidationError::ZeroConcurrency)
                } else if iterations == 0 {
                    Err(ValidationError::ZeroIterations)
                } else {
                    Ok(())
                }
            }
        }
    }
}

impl RunConfig {
    /// Checks the configuration before a run starts: returns `Ok` exactly
    /// when the timeout and every numeric scheduling parameter are
    /// positive, and otherwise names the first parameter found to be zero.
    pub fn validate(&self) -> (r: Result<(), ValidationError>)
        ensures
            r == spec_validate(*self),
            r is Ok <==> spec_valid(*self),
    {
        if self.timeout_secs == 0 {
            return Err(ValidationError::ZeroTimeout);
        }
        match self.policy {
            Policy::RatePaced { rate, duration_secs } => {
                if rate == 0 {
                    Err(ValidationError::ZeroRate)
                } else if duration_secs == 0 {
                    Err(ValidationError::ZeroDuration)
                } else {
                    Ok(())
                }
            }
            Policy::FixedIterations { concurrency, iterations } => {
                if concurrency == 0 {
                    Err(ValidationError::ZeroConcurrency)
                } else if iterations == 0 {
                    Err(ValidationError::ZeroIterations)
                } else {
                    Ok(())
                }
            }
        }
    }
}

} // verus!
