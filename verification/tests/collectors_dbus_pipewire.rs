use portaldoctor::collectors::dbus::{classify, classify_message};
use portaldoctor::collectors::pipewire::{is_screen_cast_name, is_video_class, parse_pw_dump, parse_wpctl_status};
use portaldoctor::model::dbus::DbusOutcome;

#[test]
fn classify_maps_message_fragments_to_taxonomy() {
    let make = |msg: &str| zbus::Error::Handshake(msg.to_owned());
    assert!(matches!(classify(&make("Connection timed out")), DbusOutcome::Timeout));
    assert!(matches!(classify(&make("AccessDenied: not allowed")), DbusOutcome::AccessDenied));
    assert!(matches!(classify(&make("activation of x failed")), DbusOutcome::ActivationFailure));
    assert!(matches!(classify(&make("malformed reply")), DbusOutcome::MalformedResponse));
    assert!(matches!(classify(&make("something entirely new")), DbusOutcome::Other(_)));
}

#[test]
fn unknown_messages_are_kept_verbatim() {
    assert_eq!(classify_message("something entirely new"), DbusOutcome::Other("something entirely new".to_owned()));
    assert_eq!(classify_message("The name org.x was not provided by any .service files"), DbusOutcome::NoOwner);
    assert_eq!(classify_message("Activation failed"), DbusOutcome::ActivationFailure);
}

#[test]
fn normalizes_video_graph_without_raw_properties() {
    let json = br#"
    [
      {"id":0,"type":"PipeWire:Interface:Core","info":{"version":"1.6.2","props":{"host-name":"private-host"}}},
      {"id":10,"type":"PipeWire:Interface:Node","info":{"state":"running","props":{"media.class":"Video/Source","node.name":"camera-private"}}},
      {"id":11,"type":"PipeWire:Interface:Node","info":{"state":"running","props":{"media.class":"Stream/Output/Video","media.name":"meta-screen-cast-src","node.name":"desktop-private"}}},
      {"id":12,"type":"PipeWire:Interface:Node","info":{"state":"idle","props":{"media.class":"Audio/Sink","node.name":"audio-private"}}},
      {"id":20,"type":"PipeWire:Interface:Link","info":{"state":"active","output-node-id":11,"input-node-id":10,"format":{"mediaType":"video"}}},
      {"id":21,"type":"PipeWire:Interface:Link","info":{"state":"active","output-node-id":12,"input-node-id":12,"format":{"mediaType":"audio"}}},
      {"id":30,"type":"PipeWire:Interface:Client","info":{"props":{"pipewire.access.portal.is_portal":true}}}
    ]
    "#;
    let info = parse_pw_dump(json).unwrap();
    assert_eq!(info.version.as_deref(), Some("1.6.2"));
    assert_eq!(info.object_count, 7);
    assert_eq!(info.node_count, 3);
    assert_eq!(info.link_count, 2);
    assert_eq!(info.portal_client_count, 1);
    assert_eq!(info.screen_cast_source_count, 1);
    assert_eq!(info.nodes.len(), 2);
    assert_eq!(info.links.len(), 1);
    let serialized = format!("{info:?}");
    assert!(!serialized.contains("private-host"));
    assert!(!serialized.contains("camera-private"));
    assert!(!serialized.contains("desktop-private"));
}

#[test]
fn rejects_non_array_and_invalid_json() {
    assert!(parse_pw_dump(br"{}").is_err());
    assert!(parse_pw_dump(br"not-json").is_err());
}

#[test]
fn parses_wireplumber_header_without_private_identity() {
    let info = parse_wpctl_status(
        "PipeWire 'pipewire-0' [1.6.2, tuncay@private-host, cookie:123]\n \\
         33. WirePlumber [1.6.2, private-host]\n \\
         40. WirePlumber [export]\n",
    )
    .unwrap();
    assert_eq!(info.pipewire_version.as_deref(), Some("1.6.2"));
    assert_eq!(info.wireplumber_client_count, 2);
    let serialized = format!("{info:?}");
    assert!(!serialized.contains("private-host"));
    assert!(!serialized.contains("tuncay"));
}

#[test]
fn wpctl_status_without_header_is_a_parse_error() {
    assert!(parse_wpctl_status("no pipewire here\n").is_err());
}

#[test]
fn video_classes_and_screen_cast_names() {
    assert!(is_video_class(Some("Video/Source")));
    assert!(is_video_class(Some("Stream/Output/Video")));
    assert!(!is_video_class(Some("Audio/Sink")));
    assert!(!is_video_class(None));
    assert!(is_screen_cast_name(Some("meta-screen-cast-src")));
    assert!(!is_screen_cast_name(Some("camera")));
    assert!(!is_screen_cast_name(None));
}

#[test]
fn pw_dump_reads_fallback_link_properties_and_string_flags() {
    let json = br#"[
      {"id":5,"type":"PipeWire:Interface:Node","info":{"state":"running","props":{"media.class":"Video/Source"}}},
      {"id":6,"type":"PipeWire:Interface:Link","info":{"state":"active","props":{"link.output.node":5,"link.input.node":9,"media.type":"Video"}}},
      {"id":7,"type":"PipeWire:Interface:Client","info":{"props":{"pipewire.access.portal.is_portal":"TRUE"}}},
      {"id":8,"type":"PipeWire:Interface:Node","info":{"props":{"media.class":""}}}
    ]"#;
    let info = parse_pw_dump(json).unwrap();
    assert_eq!(info.object_count, 4);
    assert_eq!(info.node_count, 2);
    assert_eq!(info.portal_client_count, 1);
    assert_eq!(info.nodes.len(), 1);
    assert_eq!(info.links.len(), 1);
    assert_eq!(info.links[0].output_node_id, Some(5));
    assert_eq!(info.links[0].input_node_id, Some(9));
    assert_eq!(info.links[0].media_type.as_deref(), Some("video"));
    assert_eq!(parse_pw_dump(b"{\"a\":1}").unwrap_err(), "top-level value is not an object array");
}
