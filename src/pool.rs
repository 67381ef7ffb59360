//! The connection pool's settings, and what a failed claim means for a call.
use vstd::prelude::*;
use crate::error::MorayError;

verus! {

/// The error type of cueball's connection pool.
#[verifier::external_type_specification]
#[verifier::external_body]
pub struct ExPoolError(cueball::error::Error);

/// Connections the pool keeps at most, unless configured otherwise.
pub const DEFAULT_MAX_CONNECTIONS: u32 = 5;

/// Milliseconds a claim waits for a free connection, unless configured otherwise.
pub const DEFAULT_CLAIM_TIMEOUT_MS: u64 = 5000;

/// Settings of the connection pool: at least one connection, and a claim
/// timeout in milliseconds (`None`: wait without bound).
#[derive(Debug, Clone, Copy, PartialEq, Eq)]
pub struct PoolConfig {
    pub maximum: u32,
    pub claim_timeout: Option<u64>,
}

impl PoolConfig {
    pub open spec fn wf(&self) -> bool {
        self.maximum >= 1
    }
}

/// Checks pool settings before a client is built. Nothing is connected
/// here: connections are made later, by the pool, when calls claim them.
pub fn validate_pool_config(maximum: u32, claim_timeout: Option<u64>) -> (r: Result<PoolConfig, MorayError>)
    ensures
        r is Ok <==> maximum >= 1,
        r matches Ok(c) ==> c.wf() && c.maximum == maximum && c.claim_timeout == claim_timeout,
        r matches Err(e) ==> e is Config,
{
    if maximum == 0 {
        Err(MorayError::Config("the pool needs at least one connection".to_string()))
    } else {
        Ok(PoolConfig { maximum, claim_timeout })
    }
}

/// The settings a client uses unless told otherwise.
pub fn default_pool_config() -> (r: PoolConfig)
    ensures
        r.wf(),
        r.maximum == DEFAULT_MAX_CONNECTIONS,
        r.claim_timeout == Some(DEFAULT_CLAIM_TIMEOUT_MS),
{
    PoolConfig { maximum: DEFAULT_MAX_CONNECTIONS, claim_timeout: Some(DEFAULT_CLAIM_TIMEOUT_MS) }
}

/// Why the pool handed out no connection.
#[derive(Debug, Clone, Copy, PartialEq, Eq)]
pub enum ClaimFailure {
    /// No connection became free within the claim timeout.
    TimedOut,
    /// The pool failed for another reason.
    PoolFault,
}

/// Relies on cueball::error::Error: `ClaimFailure` is the variant that
/// `ConnectionPool::claim` returns when its claim timeout elapses; the
/// others are faults of the pool itself.
#[verifier::external_body]
fn claim_failure_of(e: &cueball::error::Error) -> (r: ClaimFailure) {
    match e {
        cueball::error::Error::ClaimFailure => ClaimFailure::TimedOut,
        cueball::error::Error::StopCalledByClone => ClaimFailure::PoolFault,
        cueball::error::Error::BackendWithNoConnection => ClaimFailure::PoolFault,
        cueball::error::Error::ConnectionRetrievalFailure => ClaimFailure::PoolFault,
        cueball::error::Error::DummyError => ClaimFailure::PoolFault,
    }
}

/// The call error for a failed claim.
pub fn claim_error(f: ClaimFailure) -> (e: MorayError)
    ensures
        f == ClaimFailure::TimedOut <==> e == MorayError::PoolTimeout,
        f == ClaimFailure::PoolFault ==> e is Transport,
{
    match f {
        ClaimFailure::TimedOut => MorayError::PoolTimeout,
        ClaimFailure::PoolFault => MorayError::Transport("the connection pool failed".to_string()),
    }
}

/// The outcome of a claim on the pool, as a call sees it: the connection,
/// or a call error; a timeout becomes `PoolTimeout`.
pub fn claimed<C>(r: Result<C, cueball::error::Error>) -> (o: Result<C, MorayError>)
    ensures
        r matches Ok(c) ==> o == Ok::<C, MorayError>(c),
        r is Err ==> (o matches Err(e) && (e == MorayError::PoolTimeout || e is Transport)),
{
    match r {
        Ok(c) => Ok(c),
        Err(e) => Err(claim_error(claim_failure_of(&e))),
    }
}

} // verus!
