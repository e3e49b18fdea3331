use portaldoctor::model::probe::{
    CleanupResource, CleanupResult, CleanupStatus, ProbeKind, ProbeResult, ProbeResultError, ProbeStage, ProbeStatus,
    PROBE_RESULT_SCHEMA_VERSION,
};
use portaldoctor::probes::filechooser;
use portaldoctor::probes::portal::{
    after_late_reply, after_request_call, handle_token, handle_token_with_entropy, request_close_cleanup,
    request_path_for_sender, session_path_for_sender, valid_request_path, valid_session_path,
    valid_session_path_for_sender, CloseCall, HandleTokenError, LateReply, RequestCall, RequestStep, ResponseKind,
};
use portaldoctor::probes::screencast::{
    self, combine_cleanup, decode_session_handle, introspection_supports_create_session,
    introspection_supports_select_sources, validate_stream_container, Pending, ScreenCastAction, ScreenCastEvent,
    ScreenCastRun, StreamEntry,
};
use portaldoctor::probes::screenshot::{
    self, introspection_supports_screenshot, introspection_supports_window_targets, negotiate_capability,
    warning_text, window_target_is_available, ScreenshotCapability,
};

#[test]
fn schema_version_is_independent_and_stable() {
    assert_eq!(PROBE_RESULT_SCHEMA_VERSION, 1);
}

#[test]
fn probe_stage_and_cleanup_resource_matrix_accepts_valid_combinations() {
    let valid_stages = [
        (ProbeKind::FileChooser, ProbeStage::Prepare),
        (ProbeKind::FileChooser, ProbeStage::Request),
        (ProbeKind::FileChooser, ProbeStage::Response),
        (ProbeKind::FileChooser, ProbeStage::Cleanup),
        (ProbeKind::FileChooser, ProbeStage::Complete),
        (ProbeKind::Screenshot, ProbeStage::Prepare),
        (ProbeKind::Screenshot, ProbeStage::Request),
        (ProbeKind::Screenshot, ProbeStage::Response),
        (ProbeKind::Screenshot, ProbeStage::Cleanup),
        (ProbeKind::Screenshot, ProbeStage::Complete),
        (ProbeKind::ScreenCast, ProbeStage::Prepare),
        (ProbeKind::ScreenCast, ProbeStage::CreateSession),
        (ProbeKind::ScreenCast, ProbeStage::SelectSources),
        (ProbeKind::ScreenCast, ProbeStage::Start),
        (ProbeKind::ScreenCast, ProbeStage::StreamsReturned),
        (ProbeKind::ScreenCast, ProbeStage::OpenPipeWireRemote),
        (ProbeKind::ScreenCast, ProbeStage::Cleanup),
        (ProbeKind::ScreenCast, ProbeStage::Complete),
    ];
    for (probe, stage) in valid_stages {
        let result = ProbeResult::new(probe, stage, ProbeStatus::Success, CleanupResult::completed()).unwrap();
        assert_eq!(result.probe(), probe);
        assert_eq!(result.stage(), stage);
        assert_eq!(result.schema_version(), PROBE_RESULT_SCHEMA_VERSION);
    }
    let valid_resources = [
        (ProbeKind::FileChooser, ProbeStage::Response, vec![CleanupResource::Request]),
        (ProbeKind::Screenshot, ProbeStage::Response, vec![CleanupResource::Request]),
        (ProbeKind::ScreenCast, ProbeStage::CreateSession, vec![CleanupResource::Request]),
        (ProbeKind::ScreenCast, ProbeStage::CreateSession, vec![CleanupResource::Session]),
        (ProbeKind::ScreenCast, ProbeStage::OpenPipeWireRemote, vec![CleanupResource::PipeWireRemote]),
        (
            ProbeKind::ScreenCast,
            ProbeStage::Cleanup,
            vec![CleanupResource::Request, CleanupResource::Session, CleanupResource::PipeWireRemote],
        ),
    ];
    for (probe, stage, resources) in valid_resources {
        let cleanup = CleanupResult::failed(resources.clone()).unwrap();
        let result = ProbeResult::new(probe, stage, ProbeStatus::Success, cleanup).unwrap();
        assert_eq!(result.cleanup().failed_resources(), resources.as_slice());
    }
}

#[test]
fn probe_stage_and_cleanup_resource_matrix_rejects_invalid_constructors() {
    let invalid_stages = [
        (ProbeKind::FileChooser, ProbeStage::CreateSession),
        (ProbeKind::Screenshot, ProbeStage::OpenPipeWireRemote),
        (ProbeKind::ScreenCast, ProbeStage::Request),
        (ProbeKind::ScreenCast, ProbeStage::Response),
    ];
    for (probe, stage) in invalid_stages {
        assert!(matches!(
            ProbeResult::new(probe, stage, ProbeStatus::InfrastructureFailure, CleanupResult::not_required()),
            Err(ProbeResultError::InvalidStageForProbe { .. })
        ));
    }
    let invalid_resources = [
        (ProbeKind::FileChooser, CleanupResource::Session),
        (ProbeKind::Screenshot, CleanupResource::PipeWireRemote),
    ];
    for (probe, resource) in invalid_resources {
        let cleanup = CleanupResult::failed(vec![resource]).unwrap();
        assert!(matches!(
            ProbeResult::new(probe, ProbeStage::Response, ProbeStatus::InfrastructureFailure, cleanup),
            Err(ProbeResultError::InvalidCleanupResourceForProbe { .. })
        ));
    }
}

#[test]
fn cleanup_failure_is_independent_from_operation_status() {
    let result = ProbeResult::new(
        ProbeKind::ScreenCast,
        ProbeStage::Cleanup,
        ProbeStatus::Success,
        CleanupResult::failed(vec![CleanupResource::Session]).unwrap(),
    )
    .unwrap();
    assert_eq!(result.status(), ProbeStatus::Success);
    assert_eq!(result.cleanup().status(), CleanupStatus::Failed);
    assert_eq!(result.cleanup().failed_resources(), &[CleanupResource::Session]);
    assert!(!result.is_clean_success());
}

#[test]
fn unverified_cleanup_is_not_a_clean_success() {
    let result =
        ProbeResult::new(ProbeKind::Screenshot, ProbeStage::Response, ProbeStatus::Success, CleanupResult::unverified())
            .unwrap();
    assert!(!result.is_clean_success());
}

#[test]
fn cleanup_status_and_resource_combinations_are_validated() {
    assert!(CleanupResult::try_new(CleanupStatus::NotRequired, vec![CleanupResource::Request]).is_err());
    assert!(CleanupResult::try_new(CleanupStatus::Completed, vec![CleanupResource::Request]).is_err());
    assert!(CleanupResult::try_new(CleanupStatus::Failed, Vec::new()).is_err());
    assert!(CleanupResult::try_new(
        CleanupStatus::Failed,
        vec![CleanupResource::Request, CleanupResource::Request]
    )
    .is_err());
    assert!(CleanupResult::try_new(CleanupStatus::Unverified, vec![CleanupResource::Request]).is_ok());
    assert_eq!(
        CleanupResult::unverified_resources(vec![CleanupResource::Session]).unwrap().failed_resources(),
        &[CleanupResource::Session]
    );
}

#[test]
fn schema_version_mismatch_is_rejected() {
    let result = ProbeResult::from_parts(
        2,
        ProbeKind::FileChooser,
        ProbeStage::Response,
        ProbeStatus::Success,
        CleanupResult::completed(),
    );
    assert_eq!(result, Err(ProbeResultError::InvalidSchemaVersion { expected: 1, actual: 2 }));
    assert_eq!(
        ProbeResultError::InvalidSchemaVersion { expected: 1, actual: 2 }.to_string(),
        "unsupported probe result schema version 2; expected 1"
    );
}

#[test]
fn clean_success_requires_success_and_clean_cleanup() {
    let ok = ProbeResult::new(ProbeKind::FileChooser, ProbeStage::Complete, ProbeStatus::Success, CleanupResult::completed())
        .unwrap();
    assert!(ok.is_clean_success());
    let cancelled =
        ProbeResult::new(ProbeKind::FileChooser, ProbeStage::Complete, ProbeStatus::UserCancelled, CleanupResult::completed())
            .unwrap();
    assert!(!cancelled.is_clean_success());
}

#[test]
fn handle_token_generation_fails_closed_without_entropy() {
    let result = handle_token_with_entropy(Err(HandleTokenError::EntropyUnavailable), 0);
    assert_eq!(result, Err(HandleTokenError::EntropyUnavailable));
}

#[test]
fn handle_token_spells_entropy_and_sequence_in_hex() {
    let token = handle_token_with_entropy(Ok([0xab; 16]), 255).unwrap();
    assert_eq!(token, format!("portaldoctor_{}_ff", "ab".repeat(16)));
}

#[test]
fn generated_handle_tokens_are_unique() {
    let mut tokens = std::collections::HashSet::new();
    for sequence in 0..64 {
        let token = handle_token(sequence).expect("the operating system entropy source is available");
        assert!(tokens.insert(token));
    }
}

#[test]
fn request_path_uses_only_a_valid_sender_name() {
    let token = handle_token(0).expect("the operating system entropy source is available");
    assert_eq!(
        request_path_for_sender(":1.42", &token).unwrap(),
        format!("/org/freedesktop/portal/desktop/request/1_42/{token}")
    );
    assert!(request_path_for_sender("org.freedesktop.portal.Desktop", &token).is_none());
}

#[test]
fn session_path_uses_only_a_valid_sender_name() {
    let token = handle_token(1).expect("the operating system entropy source is available");
    let path = session_path_for_sender(":1.42", &token).unwrap();
    assert!(valid_session_path(&path));
    let expected = session_path_for_sender(":1.42", "expected").unwrap();
    assert!(valid_session_path_for_sender(&path, &expected));
    assert!(!valid_session_path_for_sender("/org/freedesktop/portal/desktop/session/1_43/other", &expected));
    assert!(session_path_for_sender("org.freedesktop.portal.Desktop", &token).is_none());
}

#[test]
fn response_terminality_is_independent_of_response_status() {
    assert!(ResponseKind::Outcome { code: 0 }.ends_request());
    assert!(ResponseKind::Outcome { code: 1 }.ends_request());
    assert!(ResponseKind::MalformedResponse.ends_request());
    assert!(!ResponseKind::UserCancelled.ends_request());
    assert!(!ResponseKind::TimedOut.ends_request());
    assert!(!ResponseKind::InfrastructureFailure.ends_request());
}

#[test]
fn request_path_validation_does_not_accept_unrelated_objects() {
    assert!(valid_request_path("/org/freedesktop/portal/desktop/request/1_42"));
    assert!(!valid_request_path("/org/freedesktop/portal/desktop"));
}

#[test]
fn request_steps_close_every_request_that_may_exist() {
    assert_eq!(after_request_call(RequestCall::Reply { valid_path: true }), RequestStep::Wait);
    assert_eq!(
        after_request_call(RequestCall::Reply { valid_path: false }),
        RequestStep::Close { returned_path: false, unknown_is_completed: false, status: ProbeStatus::MalformedResponse }
    );
    assert_eq!(
        after_request_call(RequestCall::Failed { status: ProbeStatus::Unsupported }),
        RequestStep::Done { status: ProbeStatus::Unsupported }
    );
    assert_eq!(
        after_request_call(RequestCall::Failed { status: ProbeStatus::TimedOut }),
        RequestStep::Close { returned_path: false, unknown_is_completed: false, status: ProbeStatus::TimedOut }
    );
    assert_eq!(
        after_late_reply(LateReply::Reply { valid_path: true }, ProbeStatus::UserCancelled),
        RequestStep::Close { returned_path: true, unknown_is_completed: true, status: ProbeStatus::UserCancelled }
    );
    assert_eq!(request_close_cleanup(CloseCall::ObjectGone, false).status(), CleanupStatus::Unverified);
    assert_eq!(request_close_cleanup(CloseCall::ObjectGone, true).status(), CleanupStatus::Completed);
    assert_eq!(request_close_cleanup(CloseCall::TimedOut, true).failed_resources(), &[CleanupResource::Request]);
}

#[test]
fn introspection_requires_the_interface_and_open_file_method() {
    let xml = r#"
        <node>
          <interface name="org.freedesktop.portal.FileChooser">
            <method name="OpenFile"/>
          </interface>
        </node>
    "#;
    assert!(filechooser::introspection_supports_filechooser(xml));
    assert!(!filechooser::introspection_supports_filechooser(
        "<interface name=\"org.freedesktop.portal.FileChooser\"><method name=\"SaveFile\"/></interface>"
    ));
    assert!(!filechooser::introspection_supports_filechooser(
        "<interface name=\"org.freedesktop.portal.Screenshot\"><method name=\"OpenFile\"/></interface>"
    ));
}

#[test]
fn response_statuses_are_distinct_without_reading_file_content() {
    assert!(filechooser::has_uri_array(Some("as")));
    assert_eq!(filechooser::decode_response(0, Some("as")), ProbeStatus::Success);
    assert_eq!(filechooser::decode_response(1, None), ProbeStatus::UserCancelled);
    assert_eq!(filechooser::decode_response(2, None), ProbeStatus::InfrastructureFailure);
    assert_eq!(filechooser::decode_response(7, None), ProbeStatus::MalformedResponse);
    assert_eq!(filechooser::decode_response(0, None), ProbeStatus::MalformedResponse);
    assert_eq!(filechooser::decode_response(0, Some("s")), ProbeStatus::MalformedResponse);
}

#[test]
fn error_classes_preserve_unavailable_and_unsupported_boundaries() {
    assert_eq!(filechooser::classify_error_message("org.freedesktop.DBus.Error.ServiceUnknown"), ProbeStatus::Unavailable);
    assert_eq!(filechooser::classify_error_message("DBUS_SESSION_BUS_ADDRESS is not set"), ProbeStatus::Unavailable);
    assert_eq!(filechooser::classify_error_message("org.freedesktop.DBus.Error.UnknownMethod"), ProbeStatus::Unsupported);
    assert_eq!(filechooser::classify_error_message("org.freedesktop.DBus.Error.NoReply: timed out"), ProbeStatus::TimedOut);
    assert_eq!(filechooser::classify_error_message("org.freedesktop.DBus.Error.AccessDenied"), ProbeStatus::InfrastructureFailure);
}

#[test]
fn rendered_result_never_contains_a_selected_uri() {
    let result =
        ProbeResult::new(ProbeKind::FileChooser, ProbeStage::Complete, ProbeStatus::Success, CleanupResult::completed())
            .unwrap();
    let rendered = filechooser::render_terminal(&result);
    assert!(!rendered.contains("file://"));
    assert!(!rendered.contains("not-read"));
    assert_eq!(
        rendered,
        "PortalDoctor FileChooser probe\nOperation: success\nStage: complete\nCleanup: completed\nCleanup resources: none"
    );
}

#[test]
fn cleanup_failure_moves_the_terminal_stage_to_cleanup_without_erasing_status() {
    let result = filechooser::finalize(
        filechooser::ResponseWait::Outcome(ProbeStatus::Success),
        CleanupResult::failed(vec![CleanupResource::Request]).unwrap(),
    );
    assert_eq!(result.status(), ProbeStatus::Success);
    assert_eq!(result.stage(), ProbeStage::Cleanup);
    assert_eq!(result.cleanup().status(), CleanupStatus::Failed);
    assert_eq!(filechooser::exit_code(&result), 1);
    assert!(filechooser::render_terminal(&result).ends_with("Cleanup resources: request"));

    let cancelled = filechooser::finalize(filechooser::ResponseWait::UserCancelled, CleanupResult::completed());
    assert_eq!(cancelled.status(), ProbeStatus::UserCancelled);
    assert_eq!(cancelled.stage(), ProbeStage::Complete);
    assert_eq!(filechooser::exit_code(&cancelled), 1);

    let timed_out = filechooser::finalize(filechooser::ResponseWait::TimedOut, CleanupResult::completed());
    assert_eq!(timed_out.status(), ProbeStatus::TimedOut);
    assert_eq!(timed_out.stage(), ProbeStage::Response);
    assert_eq!(filechooser::exit_code(&timed_out), 1);
}

#[test]
fn open_file_outcomes_keep_unverified_requests_visible() {
    assert!(filechooser::open_file_outcome(filechooser::OpenFileCall::Reply { valid_path: true }).is_none());
    let foreign = filechooser::open_file_outcome(filechooser::OpenFileCall::Reply { valid_path: false }).unwrap();
    assert_eq!(foreign.status(), ProbeStatus::MalformedResponse);
    assert_eq!(foreign.stage(), ProbeStage::Cleanup);
    let late = filechooser::open_file_outcome(filechooser::OpenFileCall::TimedOut).unwrap();
    assert_eq!(late.cleanup().status(), CleanupStatus::Unverified);
    assert_eq!(filechooser::close_request_cleanup(CloseCall::ObjectGone).status(), CleanupStatus::Completed);
}

#[test]
fn introspection_distinguishes_v2_and_v3_shapes() {
    let v2_xml = r#"
        <node>
          <interface name="org.freedesktop.portal.Screenshot">
            <property name="version" type="u" access="read"/>
            <method name="Screenshot"/>
          </interface>
        </node>
    "#;
    assert!(introspection_supports_screenshot(v2_xml));
    assert!(!introspection_supports_window_targets(v2_xml));

    let real_portal_order = r#"
        <interface name="org.freedesktop.portal.Screenshot">
          <method name="Screenshot"/>
          <property type="u" name="version" access="read"/>
          <property type="u" name="AvailableTargets" access="read"/>
        </interface>
    "#;
    assert!(introspection_supports_screenshot(real_portal_order));
    assert!(introspection_supports_window_targets(real_portal_order));

    let xml = r#"
        <node>
          <interface name="org.freedesktop.portal.Screenshot">
            <property name="version" type="u" access="read"/>
            <property name="AvailableTargets" type="u" access="read"/>
            <method name="Screenshot"/>
          </interface>
        </node>
    "#;
    assert!(introspection_supports_screenshot(xml));
    assert!(introspection_supports_window_targets(xml));
    assert!(!introspection_supports_screenshot(
        "<interface name=\"org.freedesktop.portal.Screenshot\"><method name=\"Screenshot\"/></interface>"
    ));
    assert!(!introspection_supports_screenshot(
        "<interface name=\"org.freedesktop.portal.FileChooser\"><method name=\"OpenFile\"/></interface>"
    ));
}

#[test]
fn window_target_policy_does_not_accept_other_targets() {
    assert!(window_target_is_available(2));
    assert!(window_target_is_available(3));
    assert!(!window_target_is_available(1));
    assert!(!window_target_is_available(4));
    assert!(!window_target_is_available(8));
}

#[test]
fn capability_negotiation_requires_trusted_gnome_for_v2() {
    assert_eq!(negotiate_capability(2, false, 0, true), Ok(ScreenshotCapability::V2GnomeInteractive));
    assert_eq!(negotiate_capability(2, false, 0, false), Err(ProbeStatus::Unsupported));
    assert_eq!(negotiate_capability(3, true, 2, false), Ok(ScreenshotCapability::V3Window));
    assert_eq!(negotiate_capability(3, false, 2, false), Err(ProbeStatus::Unsupported));
    assert_eq!(negotiate_capability(3, true, 1, false), Err(ProbeStatus::Unsupported));
}

#[test]
fn v2_warning_discloses_portal_selected_target_scope() {
    let warning = warning_text(ScreenshotCapability::V2GnomeInteractive);
    assert!(warning.contains("screen, window, or area"));
    assert!(warning.contains("will choose the screenshot target"));
}

#[test]
fn response_requires_a_string_uri_without_reading_its_contents() {
    assert!(screenshot::has_uri_string(Some("s")));
    assert_eq!(screenshot::decode_response(0, Some("s")), ProbeStatus::Success);
    assert_eq!(screenshot::decode_response(0, None), ProbeStatus::MalformedResponse);
    assert!(!screenshot::has_uri_string(Some("u")));
    assert_eq!(screenshot::decode_response(0, Some("u")), ProbeStatus::MalformedResponse);
    assert_eq!(screenshot::decode_response(1, None), ProbeStatus::UserCancelled);
    assert_eq!(screenshot::decode_response(2, None), ProbeStatus::InfrastructureFailure);
    assert_eq!(screenshot::decode_response(9, None), ProbeStatus::MalformedResponse);
}

#[test]
fn terminal_and_json_results_never_contain_portal_artifact_data() {
    let result =
        ProbeResult::new(ProbeKind::Screenshot, ProbeStage::Complete, ProbeStatus::Success, CleanupResult::completed())
            .unwrap();
    let terminal = screenshot::render_terminal(&result);
    for forbidden in ["document://", "file://", "fake-screenshot", ".png", "window-secret"] {
        assert!(!terminal.contains(forbidden));
    }
    assert_eq!(screenshot::exit_code(&result), 0);
    let finalized = screenshot::finalize(ResponseKind::Outcome { code: 0 }, Some("s"), CleanupResult::not_required());
    assert!(finalized.is_clean_success());
    assert_eq!(finalized.stage(), ProbeStage::Complete);
}

#[test]
fn introspection_requires_the_screencast_create_session_method() {
    let xml = r#"
        <node>
          <interface name="org.freedesktop.portal.ScreenCast">
            <method name="CreateSession"/>
          </interface>
        </node>
    "#;
    assert!(introspection_supports_create_session(xml));
    assert!(!introspection_supports_create_session(
        r#"<interface name="org.freedesktop.portal.ScreenCast"><method name="Start"/></interface>"#
    ));
    assert!(!introspection_supports_create_session(
        r#"<interface name="org.freedesktop.portal.Screenshot"><method name="CreateSession"/></interface>"#
    ));
}

#[test]
fn introspection_requires_select_sources_and_source_capability_property() {
    let xml = r#"
        <node>
          <interface name="org.freedesktop.portal.ScreenCast">
            <property name="AvailableSourceTypes" type="u" access="read"/>
            <method name="SelectSources"/>
          </interface>
        </node>
    "#;
    assert!(introspection_supports_select_sources(xml));
    assert!(!introspection_supports_select_sources(
        r#"<interface name="org.freedesktop.portal.ScreenCast"><method name="SelectSources"/></interface>"#
    ));
    assert!(!introspection_supports_select_sources(
        r#"<interface name="org.freedesktop.portal.ScreenCast"><property name="AvailableSourceTypes" type="u" access="read"/></interface>"#
    ));
}

#[test]
fn session_handle_requires_a_sender_bound_string_object_path() {
    let expected = session_path_for_sender(":1.42", "expected").unwrap();
    assert!(decode_session_handle(Some("/org/freedesktop/portal/desktop/session/1_42/actual"), &expected).is_ok());
    assert_eq!(decode_session_handle(None, &expected), Err(ProbeStatus::MalformedResponse));
    assert_eq!(
        decode_session_handle(Some("/org/freedesktop/portal/desktop/session/1_43/other"), &expected),
        Err(ProbeStatus::MalformedResponse)
    );
    assert_eq!(
        decode_session_handle(Some("/org/freedesktop/portal/desktop/session/1_42/bad-name"), &expected),
        Err(ProbeStatus::MalformedResponse)
    );
}

#[test]
fn create_session_cleanup_failure_is_independent_and_fail_closed() {
    let result = screencast::result(
        ProbeStage::CreateSession,
        ProbeStatus::Success,
        CleanupResult::failed(vec![CleanupResource::Session]).unwrap(),
    );
    assert_eq!(result.stage(), ProbeStage::Cleanup);
    assert_eq!(result.cleanup().status(), CleanupStatus::Failed);
    assert!(!result.is_clean_success());
}

#[test]
fn stream_container_accepts_one_window_stream_only() {
    let window = StreamEntry { node_and_properties: true, source_types: vec![Some(2)] };
    let untyped = StreamEntry { node_and_properties: true, source_types: Vec::new() };
    let monitor = StreamEntry { node_and_properties: true, source_types: vec![Some(1)] };
    assert_eq!(validate_stream_container(Some("a(ua{sv})"), &vec![window.clone()]), Ok(()));
    assert_eq!(validate_stream_container(Some("a(ua{sv})"), &vec![untyped.clone()]), Ok(()));
    assert_eq!(validate_stream_container(Some("a(ua{sv})"), &vec![monitor]), Err(ProbeStatus::MalformedResponse));
    assert_eq!(validate_stream_container(Some("a(ua{sv})"), &vec![window.clone(), untyped]), Err(ProbeStatus::MalformedResponse));
    assert_eq!(validate_stream_container(Some("as"), &vec![window]), Err(ProbeStatus::MalformedResponse));
    assert_eq!(validate_stream_container(None, &Vec::new()), Err(ProbeStatus::MalformedResponse));
}

#[test]
fn combined_cleanup_keeps_every_failure_once() {
    let request = CleanupResult::failed(vec![CleanupResource::Request]).unwrap();
    let session = CleanupResult::unverified_resources(vec![CleanupResource::Session, CleanupResource::Request]).unwrap();
    let combined = combine_cleanup(&request, &session);
    assert_eq!(combined.status(), CleanupStatus::Failed);
    assert_eq!(combined.failed_resources(), &[CleanupResource::Request, CleanupResource::Session]);
    let nothing = combine_cleanup(&CleanupResult::not_required(), &CleanupResult::completed());
    assert_eq!(nothing.status(), CleanupStatus::Completed);
}

fn drive(stop_at: ProbeStage, events: &[ScreenCastEvent]) -> (ScreenCastRun, Vec<ScreenCastAction>) {
    let (mut run, first) = ScreenCastRun::new(stop_at);
    let mut actions = vec![first];
    for event in events {
        assert!(run.accepts(event), "{event:?} while {:?}", run.pending());
        let (next, action) = run.step(*event);
        run = next;
        actions.push(action);
    }
    (run, actions)
}

#[test]
fn create_session_lifecycle_closes_the_returned_session() {
    let (run, actions) = drive(
        ProbeStage::CreateSession,
        &[
            ScreenCastEvent::Prepared,
            ScreenCastEvent::MetadataReady,
            ScreenCastEvent::Call(RequestCall::Reply { valid_path: true }),
            ScreenCastEvent::Response { response: ResponseKind::Outcome { code: 0 }, payload_ok: true },
            ScreenCastEvent::SessionClosed(CloseCall::Closed),
        ],
    );
    assert_eq!(
        actions,
        vec![
            ScreenCastAction::Prepare,
            ScreenCastAction::Metadata,
            ScreenCastAction::CallMethod,
            ScreenCastAction::WaitResponse,
            ScreenCastAction::CloseSession { ownership_proven: true },
            ScreenCastAction::Finish,
        ]
    );
    assert_eq!(run.pending(), Pending::Finished);
    let result = run.result();
    assert!(result.is_clean_success());
    assert_eq!(result.stage(), ProbeStage::CreateSession);
}

#[test]
fn open_pipe_wire_remote_releases_the_descriptor_before_the_session() {
    let (run, actions) = drive(
        ProbeStage::OpenPipeWireRemote,
        &[
            ScreenCastEvent::Prepared,
            ScreenCastEvent::MetadataReady,
            ScreenCastEvent::Call(RequestCall::Reply { valid_path: true }),
            ScreenCastEvent::Response { response: ResponseKind::Outcome { code: 0 }, payload_ok: true },
            ScreenCastEvent::SourceTypes { types: 3 },
            ScreenCastEvent::MetadataReady,
            ScreenCastEvent::Call(RequestCall::Reply { valid_path: true }),
            ScreenCastEvent::Response { response: ResponseKind::Outcome { code: 0 }, payload_ok: false },
            ScreenCastEvent::MetadataReady,
            ScreenCastEvent::Call(RequestCall::Reply { valid_path: true }),
            ScreenCastEvent::Response { response: ResponseKind::Outcome { code: 0 }, payload_ok: true },
            ScreenCastEvent::RemoteOpened,
            ScreenCastEvent::RemoteClosed { closed: true },
            ScreenCastEvent::SessionClosed(CloseCall::Closed),
        ],
    );
    let n = actions.len();
    assert_eq!(actions[n - 4], ScreenCastAction::OpenRemote);
    assert_eq!(actions[n - 3], ScreenCastAction::CloseRemote);
    assert_eq!(actions[n - 2], ScreenCastAction::CloseSession { ownership_proven: true });
    assert_eq!(actions[n - 1], ScreenCastAction::Finish);
    let result = run.result();
    assert_eq!(result.stage(), ProbeStage::OpenPipeWireRemote);
    assert!(result.is_clean_success());
}

#[test]
fn unsupported_window_source_still_closes_the_session() {
    let (run, actions) = drive(
        ProbeStage::SelectSources,
        &[
            ScreenCastEvent::Prepared,
            ScreenCastEvent::MetadataReady,
            ScreenCastEvent::Call(RequestCall::Reply { valid_path: true }),
            ScreenCastEvent::Response { response: ResponseKind::Outcome { code: 0 }, payload_ok: true },
            ScreenCastEvent::SourceTypes { types: 1 },
            ScreenCastEvent::SessionClosed(CloseCall::TimedOut),
        ],
    );
    assert_eq!(actions[actions.len() - 2], ScreenCastAction::CloseSession { ownership_proven: true });
    let result = run.result();
    assert_eq!(result.status(), ProbeStatus::Unsupported);
    assert_eq!(result.stage(), ProbeStage::Cleanup);
    assert_eq!(result.cleanup().failed_resources(), &[CleanupResource::Session]);
}

#[test]
fn malformed_create_session_response_probes_only_the_expected_session() {
    let (run, actions) = drive(
        ProbeStage::Start,
        &[
            ScreenCastEvent::Prepared,
            ScreenCastEvent::MetadataReady,
            ScreenCastEvent::Call(RequestCall::Reply { valid_path: true }),
            ScreenCastEvent::Response { response: ResponseKind::MalformedResponse, payload_ok: false },
            ScreenCastEvent::SessionClosed(CloseCall::ObjectGone),
        ],
    );
    assert_eq!(actions[4], ScreenCastAction::CloseSession { ownership_proven: false });
    let result = run.result();
    assert_eq!(result.status(), ProbeStatus::MalformedResponse);
    assert_eq!(result.cleanup().status(), CleanupStatus::Unverified);
}

#[test]
fn interrupted_request_is_recovered_and_closed() {
    let (run, actions) = drive(
        ProbeStage::CreateSession,
        &[
            ScreenCastEvent::Prepared,
            ScreenCastEvent::MetadataReady,
            ScreenCastEvent::Call(RequestCall::Interrupted { status: ProbeStatus::UserCancelled }),
            ScreenCastEvent::Late(LateReply::Reply { valid_path: true }),
            ScreenCastEvent::RequestClosed(CloseCall::ObjectGone),
        ],
    );
    assert_eq!(actions[3], ScreenCastAction::RecoverCall);
    assert_eq!(actions[4], ScreenCastAction::CloseRequest { returned_path: true, unknown_is_completed: true });
    let result = run.result();
    assert_eq!(result.status(), ProbeStatus::UserCancelled);
    assert_eq!(result.cleanup().status(), CleanupStatus::Completed);
    assert_eq!(result.stage(), ProbeStage::CreateSession);
}

#[test]
fn failed_preparation_reports_the_prepare_stage() {
    let (run, _) = drive(ProbeStage::Start, &[ScreenCastEvent::PrepareFailed { status: ProbeStatus::Unavailable }]);
    let result = run.result();
    assert_eq!(result.stage(), ProbeStage::Prepare);
    assert_eq!(result.status(), ProbeStatus::Unavailable);
    assert_eq!(result.cleanup().status(), CleanupStatus::NotRequired);
}
