//! Preflight of the open-file ceiling: every in-flight connection holds a
//! descriptor, so the run needs a soft ceiling of at least the requested
//! count, and a hard ceiling that allows it.
use vstd::prelude::*;

verus! {

#[verifier::external_type_specification]
#[verifier::external_body]
pub struct ExIoError(std::io::Error);

/// What the preflight did to the soft ceiling.
#[derive(Clone, Copy, Debug, PartialEq, Eq, Structural)]
pub enum Adjustment {
    /// The soft ceiling already covered the request.
    Unchanged,
    /// The soft ceiling was raised from `from` to `to`.
    Raised { from: u64, to: u64 },
}

/// Why the run cannot start with the requested number of descriptors.
#[derive(Debug)]
pub enum LimitError {
    /// The hard ceiling is below the request and cannot be raised.
    Insufficient { requested: u64, allowed: u64 },
    /// Reading or setting the ceiling failed.
    Os(std::io::Error),
}

/// The decision for ceilings `soft` and `hard` and a request of `required`.
pub open spec fn planned(soft: u64, hard: u64, required: u64) -> Result<Adjustment, (u64, u64)> {
    if hard < required {
        Err((required, hard))
    } else if soft < required {
        Ok(Adjustment::Raised { from: soft, to: required })
    } else {
        Ok(Adjustment::Unchanged)
    }
}

/// Decides what to do with the current ceilings: fail when the hard
/// ceiling is too low, raise the soft one when only it is, else nothing.
pub fn plan(soft: u64, hard: u64, required: u64) -> (r: Result<Adjustment, LimitError>)
    ensures
        planned(soft, hard, required) matches Ok(a) ==> r matches Ok(b) && a == b,
        planned(soft, hard, required) matches Err((req, allowed)) ==> r matches Err(
            LimitError::Insufficient { requested, allowed: al },
        ) && requested == req && al == allowed,
{
    if hard < required {
        Err(LimitError::Insufficient { requested: required, allowed: hard })
    } else if soft < required {
        Ok(Adjustment::Raised { from: soft, to: required })
    } else {
        Ok(Adjustment::Unchanged)
    }
}

/// Relies on rlimit::Resource::get for `NOFILE`: the process's current
/// (soft, hard) open-file ceilings, or the error of `getrlimit`.
#[verifier::external_body]
fn nofile_ceilings() -> (r: Result<(u64, u64), std::io::Error>) {
    rlimit::Resource::NOFILE.get()
}

/// Relies on rlimit::Resource::set for `NOFILE`: asks the OS for the given
/// ceilings, returning the error of `setrlimit` if it refuses.
#[verifier::external_body]
fn set_nofile_ceilings(soft: u64, hard: u64) -> (r: Result<(), std::io::Error>) {
    rlimit::Resource::NOFILE.set(soft, hard)
}

/// Makes sure the process may hold `conns` open files: reads the ceilings,
/// raises the soft one to `conns` where the hard one allows it, and fails
/// where it does not.
pub fn check(conns: u64) -> (r: Result<Adjustment, LimitError>)
    ensures
        r matches Ok(Adjustment::Raised { from, to }) ==> to == conns && from < conns,
        r matches Err(LimitError::Insufficient { requested, allowed }) ==> requested == conns
            && allowed < conns,
{
    let (soft, hard) = match nofile_ceilings() {
        Ok(limits) => limits,
        Err(e) => {
            return Err(LimitError::Os(e));
        },
    };
    let decision = plan(soft, hard, conns);
    match decision {
        Ok(Adjustment::Raised { from, to }) => {
            match set_nofile_ceilings(to, hard) {
                Ok(()) => Ok(Adjustment::Raised { from, to }),
                Err(e) => Err(LimitError::Os(e)),
            }
        },
        other => other,
    }
}

} // verus!
