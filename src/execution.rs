use crate::config::ExecConfig;
use vstd::prelude::*;

verus! {

/// The error of an execution raced against a deadline.
#[derive(Debug, PartialEq, Eq)]
pub enum ExecError<E> {
    /// The deadline passed first and no fallback was configured.
    TimedOut,
    /// The operation finished in time and failed with this error.
    Operation(E),
    /// The deadline passed first and the fallback failed with this error.
    Fallback(E),
}

/// Settles an execution once the race against the deadline is decided:
/// `raced` is the operation's outcome if it finished first, `None` if the
/// deadline passed first.
///
/// An outcome that came in time is returned as it is. After a timeout the
/// fallback, if configured, is invoked once and its outcome returned; without
/// one the result is `TimedOut`.
pub fn settle_race<T, E, F: Fn() -> Result<T, E>>(raced: Option<Result<T, E>>, exec_config: &ExecConfig<F>) -> (r: Result<T, ExecError<E>>)
    requires
        raced.is_none() && exec_config.fallback.is_some() ==> call_requires(exec_config.fallback.unwrap(), ()),
    ensures
        match raced {
            Some(Ok(v)) => r == Ok::<T, ExecError<E>>(v),
            Some(Err(e)) => r == Err::<T, ExecError<E>>(ExecError::Operation(e)),
            None => match exec_config.fallback {
                None => r == Err::<T, ExecError<E>>(ExecError::TimedOut),
                Some(f) => exists|produced: Result<T, E>| {
                    &&& #[trigger] call_ensures(f, (), produced)
                    &&& r == match produced {
                        Ok(v) => Ok::<T, ExecError<E>>(v),
                        Err(e) => Err(ExecError::Fallback(e)),
                    }
                },
            },
        },
{
    match raced {
        Some(Ok(v)) => Ok(v),
        Some(Err(e)) => Err(ExecError::Operation(e)),
        None => match &exec_config.fallback {
            None => Err(ExecError::TimedOut),
            Some(fallback) => {
                let produced = fallback();
                match produced {
                    Ok(v) => Ok(v),
                    Err(e) => Err(ExecError::Fallback(e)),
                }
            },
        },
    }
}

} // verus!
