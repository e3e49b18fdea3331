use portaldoctor::collectors::command::{command_failure, spawn_failure, SpawnError};
use portaldoctor::collectors::portal_config::{collect_config, CandidateFile};
use portaldoctor::collectors::portal_files::{assemble_backends, DescriptorFile};
use portaldoctor::collectors::portal_frontend::{
    frontend_executable_candidates, try_next_candidate, version_arguments, version_section, VersionCommand, VersionRun,
};
use portaldoctor::collectors::systemd_user::{collect as collect_units, services_section, show_arguments, unit_status, ShowRun};
use portaldoctor::collectors::timeouts::{chunk_fits, finish, poll_step, ChildState, PipeState, PollStep, RunResult};
use portaldoctor::model::section::Section;
use portaldoctor::model::service::UnitState;
use portaldoctor::model::status::CollectorState;

fn notes<T>(s: &Section<T>) -> Vec<&str> {
    s.errors.iter().map(|n| n.message.as_str()).collect()
}

#[test]
fn spawn_failures_map_to_collector_states() {
    let s: Section<u8> = spawn_failure("pw-dump", &SpawnError::NotFound);
    assert_eq!(s.status, CollectorState::Unsupported);
    assert_eq!(notes(&s), ["pw-dump is not installed"]);
    let s: Section<u8> = spawn_failure("pw-dump", &SpawnError::PermissionDenied);
    assert_eq!(s.status, CollectorState::PermissionDenied);
    assert_eq!(notes(&s), ["cannot execute pw-dump: permission denied"]);
    let s: Section<u8> = spawn_failure("pw-dump", &SpawnError::Other("busy".to_owned()));
    assert_eq!(s.status, CollectorState::Unavailable);
    assert_eq!(notes(&s), ["cannot execute pw-dump: busy"]);
}

#[test]
fn command_failures_distinguish_permission_missing_and_exit() {
    let s: Section<u8> = command_failure("wpctl", Some(126), "", "exit status: 126");
    assert_eq!(s.status, CollectorState::PermissionDenied);
    let s: Section<u8> = command_failure("wpctl", Some(1), "Permission Denied by policy", "exit status: 1");
    assert_eq!(s.status, CollectorState::PermissionDenied);
    assert_eq!(notes(&s), ["wpctl was denied permission to run"]);
    let s: Section<u8> = command_failure("wpctl", Some(127), "", "exit status: 127");
    assert_eq!(s.status, CollectorState::Unsupported);
    assert_eq!(notes(&s), ["wpctl command is unavailable"]);
    let s: Section<u8> = command_failure("wpctl", Some(2), "boom", "exit status: 2");
    assert_eq!(s.status, CollectorState::Unavailable);
    assert_eq!(notes(&s), ["wpctl exited with exit status: 2"]);
}

#[test]
fn config_selects_the_first_existing_candidate_and_keeps_later_ones() {
    let candidates = vec!["/a/gnome-portals.conf".to_owned(), "/b/portals.conf".to_owned(), "/c/portals.conf".to_owned()];
    let files = vec![
        CandidateFile::Missing,
        CandidateFile::Text("[preferred]\ndefault=gnome\n".to_owned()),
        CandidateFile::Text("[preferred]\ndefault=gtk\n".to_owned()),
    ];
    let s = collect_config(&candidates, &files);
    assert_eq!(s.status, CollectorState::Available);
    let info = s.value.unwrap();
    assert_eq!(info.candidate_files, candidates);
    assert_eq!(info.selected_file.as_deref(), Some("/b/portals.conf"));
    assert_eq!(info.preferences.len(), 1);
    assert_eq!(info.preferences[0].source_priority, 1);
    assert_eq!(info.lower_priority_candidates.len(), 1);
    assert_eq!(info.lower_priority_candidates[0].path, "/c/portals.conf");
    assert_eq!(info.lower_priority_candidates[0].source_priority, 2);
}

#[test]
fn config_without_files_is_available_and_empty() {
    let candidates = vec!["/a/portals.conf".to_owned()];
    let s = collect_config(&candidates, &vec![CandidateFile::Missing]);
    assert_eq!(s.status, CollectorState::Available);
    let info = s.value.unwrap();
    assert_eq!(info.selected_file, None);
    assert!(info.preferences.is_empty());
}

#[test]
fn unreadable_selected_config_makes_the_section_unavailable() {
    let candidates = vec!["/a/portals.conf".to_owned()];
    let s = collect_config(&candidates, &vec![CandidateFile::Unreadable("denied".to_owned())]);
    assert_eq!(s.status, CollectorState::Unavailable);
    assert!(s.value.is_none());
}

#[test]
fn backends_are_deduplicated_by_id_and_sorted() {
    let descriptors = vec![
        DescriptorFile {
            id: "gtk".to_owned(),
            path: "/home/u/.local/share/xdg-desktop-portal/portals/gtk.portal".to_owned(),
            text: "[portal]\nDBusName=org.freedesktop.impl.portal.desktop.gtk\nInterfaces=org.freedesktop.impl.portal.FileChooser\n".to_owned(),
        },
        DescriptorFile {
            id: "gnome".to_owned(),
            path: "/usr/share/xdg-desktop-portal/portals/gnome.portal".to_owned(),
            text: "[portal]\nDBusName=org.freedesktop.impl.portal.desktop.gnome\n".to_owned(),
        },
        DescriptorFile {
            id: "gtk".to_owned(),
            path: "/usr/share/xdg-desktop-portal/portals/gtk.portal".to_owned(),
            text: "[portal]\nDBusName=other\n".to_owned(),
        },
    ];
    let backends = assemble_backends(&descriptors);
    assert_eq!(backends.len(), 2);
    assert_eq!(backends[0].id, "gnome");
    assert_eq!(backends[1].id, "gtk");
    assert_eq!(backends[1].dbus_name, "org.freedesktop.impl.portal.desktop.gtk");
    assert_eq!(backends[1].descriptor_path, "/home/u/.local/share/xdg-desktop-portal/portals/gtk.portal");
    assert_eq!(backends[1].duplicate_descriptors, ["/usr/share/xdg-desktop-portal/portals/gtk.portal"]);
}

#[test]
fn frontend_version_queries() {
    assert_eq!(version_arguments(VersionCommand::FrontendExecutable), ["--version"]);
    assert_eq!(version_arguments(VersionCommand::DpkgQuery).len(), 3);
    assert!(!frontend_executable_candidates().is_empty());
    let s = version_section("/usr/libexec/xdg-desktop-portal", VersionCommand::FrontendExecutable, VersionRun::NotFound);
    assert_eq!(s.status, CollectorState::Unsupported);
    assert!(try_next_candidate(&s));
    let s = version_section("/usr/libexec/xdg-desktop-portal", VersionCommand::FrontendExecutable, VersionRun::TimedOut);
    assert_eq!(s.status, CollectorState::TimedOut);
    assert!(!try_next_candidate(&s));
    let s = version_section(
        "/usr/libexec/xdg-desktop-portal",
        VersionCommand::FrontendExecutable,
        VersionRun::Exited { success: true, stdout: None },
    );
    assert_eq!(s.status, CollectorState::ParseError);
    let s = version_section(
        "/usr/libexec/xdg-desktop-portal",
        VersionCommand::FrontendExecutable,
        VersionRun::Exited { success: false, stdout: Some("1.20.0".to_owned()) },
    );
    assert_eq!(s.status, CollectorState::Unavailable);
}

#[test]
fn systemd_queries_map_failures() {
    let args = show_arguments("pipewire.service");
    assert_eq!(
        args.join(" "),
        "--user show pipewire.service -p ActiveState -p SubState -p UnitFileState --value"
    );
    let s = unit_status("pipewire.service", &ShowRun::Failed);
    assert_eq!(s.state, UnitState::Unreadable);
    let s = unit_status("pipewire.service", &ShowRun::Exited { success: false, stdout: String::new() });
    assert_eq!(s.state, UnitState::NotFound);
    let s = unit_status("pipewire.service", &ShowRun::Exited { success: true, stdout: "active\nrunning\nstatic\n".to_owned() });
    assert_eq!(s.state, UnitState::Active);
    assert_eq!(s.sub_state.as_deref(), Some("running"));
    assert_eq!(services_section(Vec::new()).status, CollectorState::Unsupported);
    assert_eq!(services_section(vec![s]).status, CollectorState::Available);
}

#[test]
fn bounded_run_polling_order() {
    assert!(chunk_fits(10, 0, 10));
    assert!(!chunk_fits(11, 0, 10));
    assert!(!chunk_fits(1, 10, 10));
    assert_eq!(
        poll_step(PipeState::TooLarge, None, ChildState::Exited, true),
        PollStep::StopOutputLimitExceeded
    );
    assert_eq!(poll_step(PipeState::Pending, None, ChildState::WaitFailed, false), PollStep::StopWaitFailed);
    assert_eq!(
        poll_step(PipeState::Complete, Some(PipeState::Complete), ChildState::Exited, true),
        PollStep::Finished
    );
    assert_eq!(
        poll_step(PipeState::Complete, Some(PipeState::Pending), ChildState::Exited, true),
        PollStep::StopTimedOut
    );
    assert_eq!(poll_step(PipeState::Pending, None, ChildState::Running, false), PollStep::Sleep);
    assert_eq!(finish(PipeState::Complete, None), RunResult::Completed);
    assert_eq!(finish(PipeState::Complete, Some(PipeState::TooLarge)), RunResult::OutputLimitExceeded);
    assert_eq!(finish(PipeState::Failed, None), RunResult::ReadFailed);
}

#[test]
fn systemd_collection_keeps_one_status_per_requested_unit_in_order() {
    let units = vec![
        "xdg-desktop-portal.service".to_owned(),
        "missing.service".to_owned(),
        "pipewire.service".to_owned(),
    ];
    let runs = vec![
        ShowRun::Exited { success: true, stdout: "active\nrunning\nenabled\n".to_owned() },
        ShowRun::Exited { success: false, stdout: String::new() },
        ShowRun::Failed,
    ];
    let section = collect_units(&units, &runs);
    assert_eq!(section.status, CollectorState::Available);
    assert!(section.errors.is_empty());
    let info = section.value.expect("units were requested");
    let names: Vec<&str> = info.units.iter().map(|u| u.unit.as_str()).collect();
    assert_eq!(names, ["xdg-desktop-portal.service", "missing.service", "pipewire.service"]);
    assert_eq!(info.units[0].state, UnitState::Active);
    assert_eq!(info.units[0].unit_file_state.as_deref(), Some("enabled"));
    assert_eq!(info.units[1].state, UnitState::NotFound);
    assert_eq!(info.units[2].state, UnitState::Unreadable);

    let empty = collect_units(&Vec::new(), &Vec::new());
    assert_eq!(empty.status, CollectorState::Unsupported);
    assert!(empty.value.is_none());
    assert_eq!(empty.errors.len(), 1);
    assert_eq!(empty.errors[0].message, "no portal-relevant units requested");
}
