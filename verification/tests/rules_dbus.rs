use portaldoctor::model::dbus::{DbusCheck, DbusInfo, DbusOutcome};
use portaldoctor::model::evidence::Evidence;
use portaldoctor::model::finding::Finding;
use portaldoctor::model::section::Section;
use portaldoctor::model::service::{ServiceInfo, UnitState, UnitStatus};
use portaldoctor::model::snapshot::Snapshot;
use portaldoctor::rules::dbus::{Dbus001, Dbus002, Xdp001, Xdp002};
use portaldoctor::rules::engine::DiagnosticRule;

const FRONTEND: &str = "org.freedesktop.portal.Desktop";
const BACKEND: &str = "org.freedesktop.impl.portal.desktop.gnome";

fn check(name: &str, outcome: DbusOutcome) -> DbusCheck {
    DbusCheck { name: name.to_owned(), outcome }
}

fn dbus_info(connected: bool, checks: Vec<DbusCheck>) -> Section<DbusInfo> {
    Section::available(DbusInfo { connected, checks })
}

fn services(frontend_state: UnitState) -> Section<ServiceInfo> {
    Section::available(ServiceInfo {
        units: vec![UnitStatus {
            unit: ServiceInfo::frontend_unit().to_owned(),
            state: frontend_state,
            sub_state: None,
            unit_file_state: Some("static".to_owned()),
        }],
    })
}

fn snapshot(dbus: Section<DbusInfo>, services: Section<ServiceInfo>) -> Snapshot {
    let mut s = Snapshot::new(0);
    s.session = Section::unsupported("fixture");
    s.dbus = dbus;
    s.services = services;
    s
}

fn ids(findings: &[Finding]) -> Vec<&str> {
    findings.iter().map(|f| f.id.as_str()).collect()
}

#[test]
fn no_session_bus_fires_dbus001_and_xdp001() {
    let s = snapshot(
        dbus_info(false, vec![check(FRONTEND, DbusOutcome::NoSessionBus)]),
        Section::unsupported("n/a"),
    );
    assert_eq!(ids(&Dbus001.evaluate(&s)), ["DBUS001"]);
    assert_eq!(ids(&Xdp001.evaluate(&s)), ["XDP001"]);
}

#[test]
fn frontend_absent_fires_xdp001_only() {
    let s = snapshot(
        dbus_info(true, vec![check(FRONTEND, DbusOutcome::NoOwner), check(BACKEND, DbusOutcome::HasOwner)]),
        services(UnitState::Active),
    );
    assert!(Dbus001.evaluate(&s).is_empty());
    assert_eq!(ids(&Xdp001.evaluate(&s)), ["XDP001"]);
    assert!(Dbus002.evaluate(&s).is_empty());
}

#[test]
fn frontend_timeout_fires_xdp001_with_timeout_evidence() {
    let s = snapshot(dbus_info(true, vec![check(FRONTEND, DbusOutcome::Timeout)]), Section::unsupported("n/a"));
    let findings = Xdp001.evaluate(&s);
    assert_eq!(ids(&findings), ["XDP001"]);
    assert_eq!(findings[0].evidence[0], Evidence::DbusTimeout);
}

#[test]
fn selected_backend_unreachable_fires_dbus002() {
    let s = snapshot(
        dbus_info(true, vec![check(FRONTEND, DbusOutcome::HasOwner), check(BACKEND, DbusOutcome::NoOwner)]),
        services(UnitState::Active),
    );
    assert_eq!(ids(&Dbus002.evaluate(&s)), ["DBUS002"]);
    assert!(Xdp001.evaluate(&s).is_empty());
}

#[test]
fn activation_failure_fires_dbus002() {
    let s = snapshot(
        dbus_info(true, vec![check(FRONTEND, DbusOutcome::HasOwner), check(BACKEND, DbusOutcome::ActivationFailure)]),
        services(UnitState::Failed),
    );
    assert_eq!(ids(&Dbus002.evaluate(&s)), ["DBUS002"]);
}

#[test]
fn healthy_runtime_is_silent() {
    let s = snapshot(
        dbus_info(true, vec![check(FRONTEND, DbusOutcome::HasOwner), check(BACKEND, DbusOutcome::HasOwner)]),
        services(UnitState::Active),
    );
    assert!(Dbus001.evaluate(&s).is_empty());
    assert!(Dbus002.evaluate(&s).is_empty());
    assert!(Xdp001.evaluate(&s).is_empty());
    assert!(Xdp002.evaluate(&s).is_empty());
}

#[test]
fn failed_frontend_unit_with_owner_fires_xdp002() {
    let s = snapshot(dbus_info(true, vec![check(FRONTEND, DbusOutcome::HasOwner)]), services(UnitState::Failed));
    assert_eq!(ids(&Xdp002.evaluate(&s)), ["XDP002"]);
}

#[test]
fn xdp002_silent_when_frontend_unreachable_or_unit_active() {
    let s1 = snapshot(dbus_info(true, vec![check(FRONTEND, DbusOutcome::NoOwner)]), services(UnitState::Failed));
    assert!(Xdp002.evaluate(&s1).is_empty());
    let s2 = snapshot(dbus_info(true, vec![check(FRONTEND, DbusOutcome::HasOwner)]), services(UnitState::Active));
    assert!(Xdp002.evaluate(&s2).is_empty());
}

#[test]
fn dbus002_summary_names_failing_backends_but_not_slow_ones() {
    let other = "org.freedesktop.impl.portal.desktop.gtk";
    let slow = "org.freedesktop.impl.portal.desktop.kde";
    let s = snapshot(
        dbus_info(
            true,
            vec![
                check(FRONTEND, DbusOutcome::HasOwner),
                check(BACKEND, DbusOutcome::NoOwner),
                check(other, DbusOutcome::AccessDenied),
                check(slow, DbusOutcome::Timeout),
            ],
        ),
        services(UnitState::Active),
    );
    let findings = Dbus002.evaluate(&s);
    assert_eq!(findings.len(), 1);
    assert!(findings[0].summary.contains(BACKEND));
    assert!(findings[0].summary.contains(other));
    assert!(!findings[0].summary.contains(slow));
}
