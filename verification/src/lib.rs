//! A validated prediction contract over a sequence of observations.
//!
//! Given a finite ordered sequence of historical observations and a horizon
//! (a count of future points), a forecast either fails one of two validation
//! checks or produces a fully determined output sequence. Two baseline
//! strategies are offered behind one interface: last-value-hold, which
//! repeats the final observation for the whole horizon, and identity, which
//! passes the observations through unchanged.
//!
//! The element type is generic: none of the strategies inspects an
//! observation's value, each only copies observations into the output, so the
//! contracts hold for any copyable element type a caller picks.

use vstd::prelude::*;

verus! {

/// The forecasting policy a call runs.
#[derive(Clone, Copy, Debug, PartialEq, Eq, Structural)]
pub enum ForecastStrategy {
    /// Repeat the final observation `horizon` times: a naive persistence
    /// baseline.
    LastValueHold,
    /// Return the observations unchanged; the output length is the input
    /// length, and the horizon argument is not consulted.
    Identity,
}

/// Why a forecast request was rejected. Validation happens before any
/// computation: the caller gets either a fully populated output or one of
/// these, never a partial result.
#[derive(Clone, Copy, Debug, PartialEq, Eq, Structural)]
pub enum PredictError {
    /// The observation sequence held no elements. This is always the first
    /// check, for every strategy.
    EmptyInput,
    /// A horizon of zero future points was requested. Only the
    /// last-value-hold strategy checks this: the identity strategy derives
    /// its output length from the input instead.
    InvalidHorizon,
}

/// The last-value-hold forecast of a non-empty observation sequence:
/// `horizon` copies of the final observation.
pub open spec fn last_value_hold<T>(obs: Seq<T>, horizon: nat) -> Seq<T> {
    Seq::new(horizon, |i: int| obs.last())
}

/// The outcome of one forecast call: an empty input is rejected first,
/// whatever the strategy; then the last-value-hold strategy rejects a zero
/// horizon; what remains succeeds with the strategy's output.
pub open spec fn forecast_spec<T>(
    strategy: ForecastStrategy,
    obs: Seq<T>,
    horizon: nat,
) -> Result<Seq<T>, PredictError> {
    if obs.len() == 0 {
        Err(PredictError::EmptyInput)
    } else {
        match strategy {
            ForecastStrategy::LastValueHold => {
                if horizon == 0 {
                    Err(PredictError::InvalidHorizon)
                } else {
                    Ok(last_value_hold(obs, horizon))
                }
            },
            ForecastStrategy::Identity => Ok(obs),
        }
    }
}

/// An executable forecast result, seen at the level `forecast_spec` speaks:
/// the output vector replaced by the sequence it holds.
pub open spec fn result_view<T>(r: Result<Vec<T>, PredictError>) -> Result<Seq<T>, PredictError> {
    match r {
        Ok(v) => Ok(v@),
        Err(e) => Err(e),
    }
}

/// Run one forecast of `horizon` future points over `observations` with the
/// chosen strategy. Pure: the result is exactly `forecast_spec` of the
/// arguments, so identical inputs always yield identical outputs.
pub fn forecast<T: Copy>(
    strategy: ForecastStrategy,
    observations: Vec<T>,
    horizon: usize,
) -> (r: Result<Vec<T>, PredictError>)
    ensures
        result_view(r) == forecast_spec(strategy, observations@, horizon as nat),
{
    if observations.len() == 0 {
        return Err(PredictError::EmptyInput);
    }
    match strategy {
        ForecastStrategy::LastValueHold => {
            if horizon == 0 {
                return Err(PredictError::InvalidHorizon);
            }
            let last: T = observations[observations.len() - 1];
            let mut out: Vec<T> = Vec::new();
            let mut i: usize = 0;
            while i < horizon
                invariant
                    i <= horizon,
                    out@.len() == i,
                    observations@.len() > 0,
                    last == observations@.last(),
                    forall|j: int| 0 <= j < i ==> out@[j] == last,
                decreases horizon - i,
            {
                out.push(last);
                i = i + 1;
            }
            proof {
                assert(out@ =~= last_value_hold(observations@, horizon as nat));
            }
            Ok(out)
        },
        ForecastStrategy::Identity => Ok(observations),
    }
}

/// Last-value-hold entry point: `horizon` copies of the final element of
/// `data`, or the validation error the input earns. For every non-empty
/// `data` and every `horizon >= 1` it succeeds, with an output of length
/// exactly `horizon` whose every element equals the last observation.
pub fn predict_static<T: Copy>(data: Vec<T>, horizon: usize) -> (r: Result<Vec<T>, PredictError>)
    ensures
        result_view(r) == forecast_spec(ForecastStrategy::LastValueHold, data@, horizon as nat),
        data@.len() >= 1 && horizon >= 1 ==> (r matches Ok(p) && p@.len() == horizon
            && forall|i: int| 0 <= i < p@.len() ==> p@[i] == data@.last()),
        data@.len() == 0 ==> r == Err::<Vec<T>, PredictError>(PredictError::EmptyInput),
        data@.len() >= 1 && horizon == 0 ==> r == Err::<Vec<T>, PredictError>(
            PredictError::InvalidHorizon,
        ),
{
    forecast(ForecastStrategy::LastValueHold, data, horizon)
}

/// Identity entry point: the observations passed through unchanged, or
/// `EmptyInput` on an empty vector. For every non-empty `input` the output
/// equals the input element for element.
pub fn predict<T: Copy>(input: Vec<T>) -> (r: Result<Vec<T>, PredictError>)
    ensures
        result_view(r) == forecast_spec(ForecastStrategy::Identity, input@, input@.len()),
        input@.len() >= 1 ==> (r matches Ok(p) && p@ == input@),
        input@.len() == 0 ==> r == Err::<Vec<T>, PredictError>(PredictError::EmptyInput),
{
    if input.len() == 0 {
        return Err(PredictError::EmptyInput);
    }
    Ok(input)
}

/// The diagnostic text a rejected call carries, as each entry point words
/// it: the two strategies report an empty input with different sentences,
/// and a zero horizon with one and the same.
pub open spec fn message_spec(e: PredictError, strategy: ForecastStrategy) -> Seq<char> {
    match e {
        PredictError::EmptyInput => match strategy {
            ForecastStrategy::LastValueHold => "Input data cannot be empty"@,
            ForecastStrategy::Identity => "Input vector cannot be empty"@,
        },
        PredictError::InvalidHorizon => "Horizon must be greater than 0"@,
    }
}

impl PredictError {
    /// The human-readable message for this error under the given strategy's
    /// wording.
    pub fn message(&self, strategy: ForecastStrategy) -> (r: &'static str)
        ensures
            r@ == message_spec(*self, strategy),
    {
        match self {
            PredictError::EmptyInput => match strategy {
                ForecastStrategy::LastValueHold => "Input data cannot be empty",
                ForecastStrategy::Identity => "Input vector cannot be empty",
            },
            PredictError::InvalidHorizon => "Horizon must be greater than 0",
        }
    }
}

/// Pure-function law: a forecast's outcome is a function of the strategy,
/// the observations and the horizon alone, so re-invocation with identical
/// inputs yields an identical result.
pub proof fn lemma_forecast_deterministic<T>(
    strategy: ForecastStrategy,
    obs: Seq<T>,
    horizon: nat,
    r1: Result<Seq<T>, PredictError>,
    r2: Result<Seq<T>, PredictError>,
)
    requires
        horizon >= 1,
        r1 == forecast_spec(strategy, obs, horizon),
        r2 == forecast_spec(strategy, obs, horizon),
    ensures
        r1 == r2,
{
}

} // verus!
