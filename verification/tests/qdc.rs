use monitro::error::Error;
use monitro::qdc::QueryOutcome;
use monitro::qdc::QueryScope;
use monitro::qdc::QuerySession;
use monitro::qdc::TopologyClass;
use monitro::qdc::topology_from_id;
use monitro::qdc::DISPLAYCONFIG_TOPOLOGY_CLONE;
use monitro::qdc::DISPLAYCONFIG_TOPOLOGY_EXTEND;
use monitro::qdc::DISPLAYCONFIG_TOPOLOGY_EXTERNAL;
use monitro::qdc::DISPLAYCONFIG_TOPOLOGY_INTERNAL;
use monitro::qdc::ERROR_INSUFFICIENT_BUFFER;
use monitro::qdc::QDC_ALL_PATHS;
use monitro::qdc::QDC_DATABASE_CURRENT;
use monitro::qdc::QDC_ONLY_ACTIVE_PATHS;
use monitro::qdc::QUERY_MAX_ATTEMPTS;

#[test]
fn scope_flags_and_topology_request() {
    let active = QuerySession::begin(QueryScope::OnlyActivePaths);
    assert_eq!(active.os_flags(), QDC_ONLY_ACTIVE_PATHS);
    assert!(!active.wants_topology());

    let all = QuerySession::begin(QueryScope::AllPaths);
    assert_eq!(all.os_flags(), QDC_ALL_PATHS);
    assert!(!all.wants_topology());

    let database = QuerySession::begin(QueryScope::DatabaseCurrent);
    assert_eq!(database.os_flags(), QDC_DATABASE_CURRENT);
    assert!(database.wants_topology());
}

#[test]
fn topology_identifiers_map_to_their_classes() {
    assert_eq!(topology_from_id(DISPLAYCONFIG_TOPOLOGY_INTERNAL), Some(TopologyClass::Internal));
    assert_eq!(topology_from_id(DISPLAYCONFIG_TOPOLOGY_CLONE), Some(TopologyClass::Clone));
    assert_eq!(topology_from_id(DISPLAYCONFIG_TOPOLOGY_EXTEND), Some(TopologyClass::Extend));
    assert_eq!(topology_from_id(DISPLAYCONFIG_TOPOLOGY_EXTERNAL), Some(TopologyClass::External));
    assert_eq!(topology_from_id(0), None);
    assert_eq!(topology_from_id(3), None);
    assert_eq!(topology_from_id(-1), None);
}

#[test]
fn straight_query_completes_with_written_counts() {
    let mut session = QuerySession::begin(QueryScope::OnlyActivePaths);
    session.sizes_reported(4, 8);
    // The OS may write fewer records than it asked to have allocated; the
    // result is trimmed to what was written.
    session.query_succeeded(3, 8, None);
    assert_eq!(
        session.outcome(),
        Ok(QueryOutcome { path_count: 3, mode_count: 8, topology: None })
    );
}

#[test]
fn hot_plug_between_phases_is_retried() {
    // The fake OS reports size 2 first; by the time the buffers are filled
    // a monitor was plugged in, so the query reports a size mismatch and
    // the second negotiation reports 3. The protocol must retry and
    // succeed with the corrected size instead of failing or truncating.
    let mut session = QuerySession::begin(QueryScope::OnlyActivePaths);
    session.sizes_reported(2, 4);
    let retry = session.query_size_mismatch();
    assert!(retry);
    session.sizes_reported(3, 6);
    session.query_succeeded(3, 6, None);
    assert_eq!(
        session.outcome(),
        Ok(QueryOutcome { path_count: 3, mode_count: 6, topology: None })
    );
}

#[test]
fn retries_are_bounded() {
    let mut session = QuerySession::begin(QueryScope::AllPaths);
    for _ in 0..QUERY_MAX_ATTEMPTS {
        session.sizes_reported(1, 1);
        assert!(session.query_size_mismatch());
    }
    session.sizes_reported(1, 1);
    assert!(!session.query_size_mismatch());
    assert_eq!(session.outcome(), Err(Error::OsQueryFailed(ERROR_INSUFFICIENT_BUFFER)));
}

#[test]
fn phase_failures_carry_the_status_verbatim() {
    let mut first_phase = QuerySession::begin(QueryScope::AllPaths);
    first_phase.os_failed(5);
    assert_eq!(first_phase.outcome(), Err(Error::OsQueryFailed(5)));

    let mut second_phase = QuerySession::begin(QueryScope::AllPaths);
    second_phase.sizes_reported(2, 2);
    second_phase.os_failed(87);
    assert_eq!(second_phase.outcome(), Err(Error::OsQueryFailed(87)));
}

#[test]
fn database_query_reports_the_topology() {
    let mut session = QuerySession::begin(QueryScope::DatabaseCurrent);
    session.sizes_reported(2, 4);
    session.query_succeeded(2, 4, Some(DISPLAYCONFIG_TOPOLOGY_INTERNAL));
    assert_eq!(
        session.outcome(),
        Ok(QueryOutcome { path_count: 2, mode_count: 4, topology: Some(TopologyClass::Internal) })
    );

    let mut unknown = QuerySession::begin(QueryScope::DatabaseCurrent);
    unknown.sizes_reported(1, 1);
    unknown.query_succeeded(1, 1, Some(99));
    assert_eq!(
        unknown.outcome(),
        Ok(QueryOutcome { path_count: 1, mode_count: 1, topology: None })
    );
}
