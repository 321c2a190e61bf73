//! The two-phase buffer negotiation for querying the OS display
//! configuration, with the bounded retry the protocol needs.
//!
//! The OS query works in two phases: first it reports how many path and
//! mode records the caller must allocate, then it fills buffers of that
//! size. Between the phases the configuration can change (a monitor
//! hot-plug), in which case the second phase reports a size mismatch; the
//! protocol then renegotiates the sizes, a bounded number of times, before
//! surfacing failure. This module is the decision half of that protocol: a
//! session state machine that is handed each OS answer as a plain value and
//! says what to do next. The embedding process performs the calls.

use vstd::prelude::*;

use crate::error::Error;

verus! {

// Flag values of the OS query calls, as the OS defines them.
pub const QDC_ALL_PATHS: u32 = 0x00000001;
pub const QDC_ONLY_ACTIVE_PATHS: u32 = 0x00000002;
pub const QDC_DATABASE_CURRENT: u32 = 0x00000004;

// Topology identifiers the OS reports alongside a database-current query.
pub const DISPLAYCONFIG_TOPOLOGY_INTERNAL: i32 = 1;
pub const DISPLAYCONFIG_TOPOLOGY_CLONE: i32 = 2;
pub const DISPLAYCONFIG_TOPOLOGY_EXTEND: i32 = 4;
pub const DISPLAYCONFIG_TOPOLOGY_EXTERNAL: i32 = 8;

/// The OS status code reported by the second phase when the buffer sizes
/// negotiated in the first phase no longer suffice.
pub const ERROR_INSUFFICIENT_BUFFER: i32 = 122;

/// How many times a size mismatch is renegotiated before the query fails.
pub const QUERY_MAX_ATTEMPTS: u8 = 3;

/// What a query asks for: the active paths only, every possible path, or
/// the database-stored configuration currently in effect (the one scope
/// that also reports a topology identifier).
#[derive(Clone, Copy, Debug, PartialEq, Eq, Structural)]
pub enum QueryScope {
    OnlyActivePaths,
    AllPaths,
    DatabaseCurrent,
}

/// The four monitor arrangements the OS database distinguishes.
#[derive(Clone, Copy, Debug, PartialEq, Eq, Structural)]
pub enum TopologyClass {
    Internal,
    Clone,
    Extend,
    External,
}

/// The OS flag word for a scope.
pub open spec fn spec_scope_flags(scope: QueryScope) -> u32 {
    match scope {
        QueryScope::OnlyActivePaths => QDC_ONLY_ACTIVE_PATHS,
        QueryScope::AllPaths => QDC_ALL_PATHS,
        QueryScope::DatabaseCurrent => QDC_DATABASE_CURRENT,
    }
}

/// The topology class behind an OS topology identifier, if it is one of
/// the four the OS defines.
pub open spec fn spec_topology_from_id(id: i32) -> Option<TopologyClass> {
    if id == DISPLAYCONFIG_TOPOLOGY_INTERNAL {
        Some(TopologyClass::Internal)
    } else if id == DISPLAYCONFIG_TOPOLOGY_CLONE {
        Some(TopologyClass::Clone)
    } else if id == DISPLAYCONFIG_TOPOLOGY_EXTEND {
        Some(TopologyClass::Extend)
    } else if id == DISPLAYCONFIG_TOPOLOGY_EXTERNAL {
        Some(TopologyClass::External)
    } else {
        None
    }
}

/// Maps an OS topology identifier to its class.
pub fn topology_from_id(id: i32) -> (r: Option<TopologyClass>)
    ensures
        r == spec_topology_from_id(id),
{
    if id == DISPLAYCONFIG_TOPOLOGY_INTERNAL {
        Some(TopologyClass::Internal)
    } else if id == DISPLAYCONFIG_TOPOLOGY_CLONE {
        Some(TopologyClass::Clone)
    } else if id == DISPLAYCONFIG_TOPOLOGY_EXTEND {
        Some(TopologyClass::Extend)
    } else if id == DISPLAYCONFIG_TOPOLOGY_EXTERNAL {
        Some(TopologyClass::External)
    } else {
        None
    }
}

/// Where a query session stands: waiting for the size report, waiting for
/// the filled buffers, or finished one way or the other.
#[derive(Clone, Copy, Debug, PartialEq, Eq, Structural)]
pub enum QueryPhase {
    /// Phase one is due: ask the OS for the required buffer sizes.
    NeedSizes,
    /// Phase two is due: allocate exactly the reported counts and issue the
    /// query.
    NeedQuery { path_count: u32, mode_count: u32 },
    /// The query succeeded; the counts are the ones the OS actually wrote,
    /// which may be smaller than what was allocated.
    Complete { path_count: u32, mode_count: u32, topology: Option<TopologyClass> },
    /// The query failed with the given OS status.
    Failed { code: i32 },
}

/// What a successful session yields: the record counts the OS wrote, and
/// the topology class for a database-current query (absent for other
/// scopes and for an identifier outside the four classes).
#[derive(Clone, Copy, Debug, PartialEq, Eq, Structural)]
pub struct QueryOutcome {
    pub path_count: u32,
    pub mode_count: u32,
    pub topology: Option<TopologyClass>,
}

/// One read-only query negotiation. The session holds no OS resource: it
/// is a record of where the protocol stands, fed with each OS answer.
#[derive(Clone, Copy, Debug, PartialEq, Eq, Structural)]
pub struct QuerySession {
    pub scope: QueryScope,
    pub attempts_left: u8,
    pub phase: QueryPhase,
}

impl QuerySession {
    /// Opens a session: phase one is due and the full retry budget is
    /// available.
    pub fn begin(scope: QueryScope) -> (s: Self)
        ensures
            s.scope == scope,
            s.phase is NeedSizes,
            s.attempts_left == QUERY_MAX_ATTEMPTS,
    {
        QuerySession { scope, attempts_left: QUERY_MAX_ATTEMPTS, phase: QueryPhase::NeedSizes }
    }

    /// The OS flag word both phases are called with.
    pub fn os_flags(&self) -> (r: u32)
        ensures
            r == spec_scope_flags(self.scope),
    {
        match self.scope {
            QueryScope::OnlyActivePaths => QDC_ONLY_ACTIVE_PATHS,
            QueryScope::AllPaths => QDC_ALL_PATHS,
            QueryScope::DatabaseCurrent => QDC_DATABASE_CURRENT,
        }
    }

    /// Whether phase two should pass a pointer to receive the topology
    /// identifier: only the database-current scope reports one.
    pub fn wants_topology(&self) -> (r: bool)
        ensures
            r == (self.scope is DatabaseCurrent),
    {
        match self.scope {
            QueryScope::DatabaseCurrent => true,
            _ => false,
        }
    }

    /// Phase one answered: the OS requires buffers of the given counts, so
    /// phase two is due with exactly those.
    pub fn sizes_reported(&mut self, path_count: u32, mode_count: u32)
        requires
            old(self).phase is NeedSizes,
        ensures
            final(self).phase == (QueryPhase::NeedQuery { path_count, mode_count }),
            final(self).scope == old(self).scope,
            final(self).attempts_left == old(self).attempts_left,
    {
        self.phase = QueryPhase::NeedQuery { path_count, mode_count };
    }

    /// Phase two succeeded: the session completes with the counts the OS
    /// actually wrote (never more than was allocated; both buffers are to
    /// be trimmed to these), and the class of the reported topology
    /// identifier when the scope asked for one.
    pub fn query_succeeded(&mut self, path_count: u32, mode_count: u32, topology_id: Option<i32>)
        requires
            old(self).phase matches QueryPhase::NeedQuery {
                path_count: allocated_paths,
                mode_count: allocated_modes,
            } && path_count <= allocated_paths && mode_count <= allocated_modes,
            topology_id is Some <==> old(self).scope is DatabaseCurrent,
        ensures
            final(self).phase == (QueryPhase::Complete {
                path_count,
                mode_count,
                topology: match topology_id {
                    Some(id) => spec_topology_from_id(id),
                    None => None,
                },
            }),
            final(self).scope == old(self).scope,
            final(self).attempts_left == old(self).attempts_left,
    {
        let topology = match topology_id {
            Some(id) => topology_from_id(id),
            None => None,
        };
        self.phase = QueryPhase::Complete { path_count, mode_count, topology };
    }

    /// Phase two reported that the negotiated sizes no longer suffice (the
    /// configuration changed between the phases). While the retry budget
    /// lasts, the sizes are renegotiated: phase one is due again. Once it
    /// is exhausted, the session fails with the OS status verbatim.
    pub fn query_size_mismatch(&mut self) -> (retry: bool)
        requires
            old(self).phase is NeedQuery,
        ensures
            retry == (old(self).attempts_left > 0),
            retry ==> final(self).phase is NeedSizes && final(self).attempts_left == old(
                self,
            ).attempts_left - 1,
            !retry ==> final(self).phase == (QueryPhase::Failed {
                code: ERROR_INSUFFICIENT_BUFFER,
            }) && final(self).attempts_left == old(self).attempts_left,
            final(self).scope == old(self).scope,
    {
        if self.attempts_left > 0 {
            self.attempts_left = self.attempts_left - 1;
            self.phase = QueryPhase::NeedSizes;
            true
        } else {
            self.phase = QueryPhase::Failed { code: ERROR_INSUFFICIENT_BUFFER };
            false
        }
    }

    /// Either phase failed with a status other than a size mismatch: the
    /// session fails at once with that status, carried verbatim.
    pub fn os_failed(&mut self, code: i32)
        requires
            old(self).phase is NeedSizes || old(self).phase is NeedQuery,
        ensures
            final(self).phase == (QueryPhase::Failed { code }),
            final(self).scope == old(self).scope,
            final(self).attempts_left == old(self).attempts_left,
    {
        self.phase = QueryPhase::Failed { code };
    }

    /// The result of a finished session: the outcome of a completed query,
    /// or the query failure with the OS status it carried. No partial
    /// result is ever produced.
    pub fn outcome(&self) -> (r: Result<QueryOutcome, Error>)
        requires
            self.phase is Complete || self.phase is Failed,
        ensures
            self.phase matches QueryPhase::Complete { path_count, mode_count, topology } ==> r
                == Ok::<QueryOutcome, Error>(QueryOutcome { path_count, mode_count, topology }),
            self.phase matches QueryPhase::Failed { code } ==> r == Err::<QueryOutcome, Error>(
                Error::OsQueryFailed(code),
            ),
    {
        match self.phase {
            QueryPhase::Complete { path_count, mode_count, topology } => Ok(QueryOutcome {
                path_count,
                mode_count,
                topology,
            }),
            QueryPhase::Failed { code } => Err(Error::OsQueryFailed(code)),
            _ => vstd::pervasive::unreached(),
        }
    }
}

} // verus!
