use rev8617::config::{ws_uri_text, Config};
use rev8617::errors::Errors;
use rev8617::protocol::{accept_handshake, version_line, version_report, version_request};
use rev8617::supervise::{load_report, unload_report};
use rev8617::Command;

#[test]
fn missing_descriptor_is_rejected() {
    let r = Config::new(
        "/no/such/descriptor.plist".to_string(),
        false,
        "127.0.0.1".to_string(),
        9090,
    );
    match r {
        Err(Errors::DescriptorNotFound { path }) => {
            assert_eq!(path, "/no/such/descriptor.plist");
        }
        other => panic!("expected DescriptorNotFound, got {:?}", other),
    }
}

#[test]
fn missing_descriptor_message_names_the_path() {
    let e = Errors::DescriptorNotFound {
        path: "/tmp/x.plist".to_string(),
    };
    assert_eq!(e.render(), "plist path does not exist:/tmp/x.plist");
}

#[test]
fn invalid_address_is_rejected() {
    let r = Config::new("p".to_string(), true, "".to_string(), 9090);
    match r {
        Err(Errors::InvalidAddress { host, port, cause }) => {
            assert_eq!(host, "");
            assert_eq!(port, 9090);
            assert!(!cause.is_empty());
        }
        other => panic!("expected InvalidAddress, got {:?}", other),
    }
}

#[test]
fn invalid_address_message_names_host_and_port() {
    let r = Config::new("p".to_string(), true, "".to_string(), 9090);
    let e = r.err().unwrap();
    let msg = e.render();
    assert!(msg.starts_with("invalid DSP address () or port (9090): "));
}

#[test]
fn valid_config_holds_normalized_uri() {
    let r = Config::new(
        "p".to_string(),
        true,
        "127.0.0.1".to_string(),
        9090,
    );
    let c = r.ok().unwrap();
    assert_eq!(c.plist_path, "p");
    assert_eq!(c.dsp_address, "127.0.0.1");
    assert_eq!(c.dsp_port, 9090);
    assert_eq!(c.dsp_uri, "ws://127.0.0.1:9090/");
}

#[test]
fn uri_text_is_host_and_port() {
    assert_eq!(ws_uri_text("127.0.0.1", 9090), "ws://127.0.0.1:9090");
    assert_eq!(ws_uri_text("localhost", 0), "ws://localhost:0");
    assert_eq!(ws_uri_text("a", 65535), "ws://a:65535");
}

#[test]
fn request_frame_is_the_quoted_literal() {
    let f = version_request();
    assert_eq!(f, "\"GetVersion\"");
    assert_eq!(f.len(), 12);
}

#[test]
fn version_response_yields_displayed_line() {
    let r = version_report("{\"GetVersion\":{\"value\":\"3.0.0\"}}");
    let line = r.ok().unwrap();
    assert!(line.contains("3.0.0"));
    assert_eq!(line, "CamillaDSP: 3.0.0, REV8617: ???");
}

#[test]
fn version_line_embeds_the_version() {
    assert_eq!(version_line("1.2.3"), "CamillaDSP: 1.2.3, REV8617: ???");
}

#[test]
fn non_json_response_is_malformed() {
    match version_report("not json") {
        Err(Errors::MalformedResponse { raw }) => assert_eq!(raw, "not json"),
        other => panic!("expected MalformedResponse, got {:?}", other),
    }
}

#[test]
fn response_without_version_path_is_malformed() {
    assert!(version_report("{}").is_err());
    assert!(version_report("{\"GetVersion\":{}}").is_err());
    assert!(version_report("{\"GetVersion\":{\"value\":42}}").is_err());
}

#[test]
fn handshake_accepts_only_200() {
    assert!(accept_handshake("ws://127.0.0.1:9090/", 200).is_ok());
    match accept_handshake("ws://127.0.0.1:9090/", 503) {
        Err(Errors::UnexpectedHandshakeStatus { uri, status }) => {
            assert_eq!(uri, "ws://127.0.0.1:9090/");
            assert_eq!(status, 503);
        }
        other => panic!("expected UnexpectedHandshakeStatus, got {:?}", other),
    }
}

#[test]
fn handshake_error_message_names_uri_and_status() {
    let e = accept_handshake("ws://127.0.0.1:9090/", 503).err().unwrap();
    assert_eq!(
        e.render(),
        "dsp connection at ws://127.0.0.1:9090/ returned non 200 error code (503)"
    );
}

#[test]
fn supervisor_unavailable_message_names_the_cause() {
    let e = Errors::SupervisorUnavailable {
        cause: "No such file or directory (os error 2)".to_string(),
    };
    assert_eq!(
        e.render(),
        "cannot run launchctl: No such file or directory (os error 2)"
    );
}

#[test]
fn daemon_unreachable_message_names_uri_and_cause() {
    let e = Errors::DaemonUnreachable {
        uri: "ws://127.0.0.1:9090/".to_string(),
        cause: "Connection refused (os error 111)".to_string(),
    };
    assert_eq!(
        e.render(),
        "cannot connect to dsp at address ws://127.0.0.1:9090/: Connection refused (os error 111)"
    );
}

#[test]
fn clean_load_reports_only_the_notice() {
    let r = load_report("/tmp/x.plist", b"");
    assert_eq!(r.notice, "loading plist at /tmp/x.plist");
    assert!(r.failure.is_none());
}

#[test]
fn load_with_stderr_reports_hint_instead_of_failing() {
    let r = load_report("/tmp/x.plist", b"Load failed: 5: Input/output error");
    let f = r.failure.unwrap();
    assert_eq!(
        f.message,
        "failed to load plist, stderr: \n Load failed: 5: Input/output error"
    );
    assert_eq!(
        f.hint,
        "make sure that plist is unloaded first! load throws error when the plist is already loaded."
    );
}

#[test]
fn second_load_surfaces_already_loaded_hint() {
    let first = load_report("/tmp/x.plist", b"");
    assert!(first.failure.is_none());
    let second = load_report("/tmp/x.plist", b"Load failed: service already loaded");
    let f = second.failure.unwrap();
    assert!(f.message.contains("already loaded"));
    assert!(f.hint.contains("already loaded"));
}

#[test]
fn unload_surfaces_both_streams_verbatim() {
    let r = unload_report("/tmp/x.plist", b"some stdout", b"some stderr");
    assert_eq!(r.notice, "unloading plist at /tmp/x.plist");
    assert_eq!(r.stdout_text, "some stdout");
    assert_eq!(r.stderr_text, "some stderr");
}

#[test]
fn unload_decodes_invalid_utf8_lossily() {
    let r = unload_report("p", &[0xff, 0xfe], b"ok");
    assert_eq!(r.stdout_text, "\u{FFFD}\u{FFFD}");
    assert_eq!(r.stderr_text, "ok");
}

#[test]
fn commands_are_a_closed_enumeration() {
    let all = [Command::Load, Command::Unload, Command::Version];
    assert_eq!(all[0], Command::Load);
    assert_ne!(Command::Load, Command::Unload);
    assert_ne!(Command::Unload, Command::Version);
}
