use maa_bridge::agent::{
    agent_arguments, agent_identifier, agent_line_text, agent_log_record, agent_timeout, AgentConfig,
    AgentStream,
};
use maa_bridge::controller::{
    controller_request, require_handle, require_request, ControllerConfig, ControllerRequest,
};
use maa_bridge::discovery::{filter_windows, Win32Window};
use maa_bridge::error::{BridgeError, HandleKind, MaskField, Precondition, RequestKind};
use maa_bridge::image::{base64_text, image_data_url};
use maa_bridge::native::{connection_status, ConnectionStatus, MAA_INVALID_ID};
use maa_bridge::resource::accepted_request_ids;
use maa_bridge::registry::Registry;
use maa_bridge::runtime::Release;
use maa_bridge::state::StateProbe;
use maa_bridge::text::{parse_u64_decimal, text_eq};
use maa_bridge::update::{archive_kind, backup_file_name, ends_with_text, ArchiveKind};

#[test]
fn decimal_masks_parse_like_std() {
    assert_eq!(parse_u64_decimal("0"), Some(0));
    assert_eq!(parse_u64_decimal("+5"), Some(5));
    assert_eq!(parse_u64_decimal("0042"), Some(42));
    assert_eq!(parse_u64_decimal("18446744073709551615"), Some(u64::MAX));
    assert_eq!(parse_u64_decimal("18446744073709551616"), None);
    assert_eq!(parse_u64_decimal("99999999999999999999x"), None);
    assert_eq!(parse_u64_decimal(""), None);
    assert_eq!(parse_u64_decimal("+"), None);
    assert_eq!(parse_u64_decimal("-1"), None);
    assert_eq!(parse_u64_decimal("12a"), None);
    assert_eq!(parse_u64_decimal(" 1"), None);
    assert_eq!(parse_u64_decimal("١٢"), None);
    for s in ["1", "+17", "00", "4294967296", "-0", "+-1", "1_000"] {
        assert_eq!(parse_u64_decimal(s), s.parse::<u64>().ok(), "{}", s);
    }
}

#[test]
fn adb_config_becomes_factory_arguments() {
    let config = ControllerConfig::Adb {
        adb_path: "C:/adb.exe".to_string(),
        address: "127.0.0.1:16384".to_string(),
        screencap_methods: "18446744073709551559".to_string(),
        input_methods: "+3".to_string(),
        config: "{\"a\":1}".to_string(),
    };
    match controller_request(&config, Some("agent/bin".to_string())).unwrap() {
        ControllerRequest::Adb { adb_path, address, screencap_methods, input_methods, config, agent_path } => {
            assert_eq!(adb_path, "C:/adb.exe");
            assert_eq!(address, "127.0.0.1:16384");
            assert_eq!(screencap_methods, 18446744073709551559);
            assert_eq!(input_methods, 3);
            assert_eq!(config, "{\"a\":1}");
            assert_eq!(agent_path, "agent/bin");
        }
        other => panic!("unexpected request {:?}", other),
    }
    match controller_request(&config, None).unwrap() {
        ControllerRequest::Adb { agent_path, .. } => assert_eq!(agent_path, ""),
        other => panic!("unexpected request {:?}", other),
    }
}

#[test]
fn malformed_masks_are_reported() {
    let bad_screencap = ControllerConfig::Adb {
        adb_path: String::new(),
        address: String::new(),
        screencap_methods: "abc".to_string(),
        input_methods: "x".to_string(),
        config: String::new(),
    };
    assert_eq!(
        controller_request(&bad_screencap, None).unwrap_err(),
        BridgeError::InvalidMethodMask(MaskField::ScreencapMethods, "abc".to_string())
    );
    let bad_input = ControllerConfig::Adb {
        adb_path: String::new(),
        address: String::new(),
        screencap_methods: "1".to_string(),
        input_methods: "-2".to_string(),
        config: String::new(),
    };
    assert_eq!(
        controller_request(&bad_input, None).unwrap_err(),
        BridgeError::InvalidMethodMask(MaskField::InputMethods, "-2".to_string())
    );
}

#[test]
fn other_controller_kinds() {
    let win = ControllerConfig::Win32 { handle: 9, screencap_method: 1, mouse_method: 2, keyboard_method: 3 };
    assert!(matches!(
        controller_request(&win, None),
        Ok(ControllerRequest::Win32 { handle: 9, screencap_method: 1, mouse_method: 2, keyboard_method: 3 })
    ));
    let ds4 = ControllerConfig::Gamepad { handle: 4, gamepad_type: Some("DS4".to_string()), screencap_method: None };
    assert!(matches!(
        controller_request(&ds4, None),
        Ok(ControllerRequest::Gamepad { handle: 4, gamepad_type: 1, screencap_method: 4 })
    ));
    let ds4_long = ControllerConfig::Gamepad {
        handle: 4,
        gamepad_type: Some("DualShock4".to_string()),
        screencap_method: Some(8),
    };
    assert!(matches!(
        controller_request(&ds4_long, None),
        Ok(ControllerRequest::Gamepad { handle: 4, gamepad_type: 1, screencap_method: 8 })
    ));
    let other = ControllerConfig::Gamepad { handle: 4, gamepad_type: Some("ds4".to_string()), screencap_method: None };
    assert!(matches!(
        controller_request(&other, None),
        Ok(ControllerRequest::Gamepad { gamepad_type: 0, .. })
    ));
    let none = ControllerConfig::Gamepad { handle: 4, gamepad_type: None, screencap_method: None };
    assert!(matches!(controller_request(&none, None), Ok(ControllerRequest::Gamepad { gamepad_type: 0, .. })));
    let play = ControllerConfig::PlayCover { address: "x".to_string() };
    assert_eq!(controller_request(&play, None).unwrap_err(), BridgeError::UnsupportedController);
}

#[test]
fn unknown_instance_is_reported_before_parsing() {
    let reg = Registry::new();
    let play = ControllerConfig::PlayCover { address: "x".to_string() };
    assert_eq!(reg.prepare_controller("x", &play, None).unwrap_err(), BridgeError::InstanceNotFound);
}

#[test]
fn null_handles_and_invalid_ids_are_errors() {
    assert_eq!(require_handle(0, HandleKind::ImageBuffer), Err(BridgeError::HandleCreationFailed(HandleKind::ImageBuffer)));
    assert_eq!(require_handle(5, HandleKind::ImageBuffer), Ok(5));
    assert_eq!(require_request(0, RequestKind::Screencap), Err(BridgeError::RequestPostFailed(RequestKind::Screencap)));
    assert_eq!(require_request(-3, RequestKind::Screencap), Ok(-3));
}

fn window(handle: u64, class: &str, name: &str) -> Win32Window {
    Win32Window { handle, class_name: class.to_string(), window_name: name.to_string() }
}

#[test]
fn windows_are_filtered_by_patterns() {
    let found = vec![window(1, "UnityWndClass", "Game"), window(2, "Notepad", "notes.txt"), window(3, "UnityWndClass", "Editor")];
    let kept = filter_windows(&found, &Some("^Unity".to_string()), &None);
    assert_eq!(kept.iter().map(|w| w.handle).collect::<Vec<_>>(), vec![1, 3]);
    let kept = filter_windows(&found, &Some("Unity".to_string()), &Some("^Ga".to_string()));
    assert_eq!(kept.iter().map(|w| w.handle).collect::<Vec<_>>(), vec![1]);
    assert_eq!(kept[0].class_name, "UnityWndClass");
    assert_eq!(kept[0].window_name, "Game");
    let all = filter_windows(&found, &None, &None);
    assert_eq!(all.len(), 3);
    let invalid = filter_windows(&found, &Some("(".to_string()), &None);
    assert_eq!(invalid.len(), 3);
    let none = filter_windows(&found, &Some("^Nothing$".to_string()), &None);
    assert!(none.is_empty());
}

#[test]
fn cached_image_becomes_png_data_url() {
    assert_eq!(image_data_url(true, &vec![1, 2, 3]).unwrap(), "data:image/png;base64,AQID");
    assert_eq!(image_data_url(true, &vec![0xff]).unwrap(), "data:image/png;base64,/w==");
    assert_eq!(
        image_data_url(true, &vec![]),
        Err(BridgeError::PreconditionViolation(Precondition::NoImageData))
    );
    assert_eq!(
        image_data_url(false, &vec![1]),
        Err(BridgeError::PreconditionViolation(Precondition::CachedImageUnavailable))
    );
}

#[test]
fn file_bytes_encode_as_standard_base64() {
    assert_eq!(base64_text(&b"hello".to_vec()), "aGVsbG8=");
    assert_eq!(base64_text(&vec![]), "");
    assert_eq!(base64_text(&vec![0xfb, 0xff]), "+/8=");
}

#[test]
fn agent_arguments_end_with_identifier() {
    let config = AgentConfig {
        child_exec: "python".to_string(),
        child_args: Some(vec!["-u".to_string(), "agent.py".to_string()]),
        identifier: None,
        timeout: Some(5000),
    };
    assert_eq!(agent_arguments(&config, "sock-1"), vec!["-u", "agent.py", "sock-1"]);
    assert_eq!(agent_timeout(&config), 5000);
    let bare = AgentConfig { child_exec: "a".to_string(), child_args: None, identifier: None, timeout: None };
    assert_eq!(agent_arguments(&bare, "id"), vec!["id"]);
    assert_eq!(agent_timeout(&bare), -1);
}

#[test]
fn agent_identifier_absent_releases_client() {
    let out = agent_identifier(0x40, None);
    assert_eq!(out.result, Err(BridgeError::PreconditionViolation(Precondition::AgentIdentifierUnavailable)));
    assert_eq!(out.releases, vec![Release::DestroyAgent(0x40)]);
    let out = agent_identifier(0x40, Some("abc".to_string()));
    assert_eq!(out.result, Ok("abc".to_string()));
    assert!(out.releases.is_empty());
}

#[test]
fn agent_lines_lose_terminators_and_bad_bytes() {
    assert_eq!(agent_line_text(b"hello\r\n".to_vec()), "hello");
    assert_eq!(agent_line_text(b"hello\n".to_vec()), "hello");
    assert_eq!(agent_line_text(b"a\rb".to_vec()), "a\rb");
    assert_eq!(agent_line_text(b"\n\n".to_vec()), "\n");
    assert_eq!(agent_line_text(vec![0x61, 0xff, 0x62, 0x0a]), "a\u{fffd}b");
    assert_eq!(agent_line_text("日本\n".as_bytes().to_vec()), "日本");
    assert_eq!(agent_line_text(vec![]), "");
}

#[test]
fn agent_log_records_name_their_stream() {
    assert_eq!(agent_log_record("2024-01-02 03:04:05", AgentStream::Stdout, "ready"), "2024-01-02 03:04:05 [stdout] ready");
    assert_eq!(agent_log_record("t", AgentStream::Stderr, ""), "t [stderr] ");
    assert_eq!(AgentStream::Stderr.label(), "stderr");
}

#[test]
fn agent_records_keep_process_and_connected_client() {
    let mut reg = Registry::new();
    reg.create_instance("x".to_string());
    let out = reg.record_agent("x", 0x40, 10, false);
    assert_eq!(out.result, Err(BridgeError::AgentConnectFailed));
    assert_eq!(out.releases, vec![Release::DestroyAgent(0x40)]);
    let out = reg.record_agent("x", 0x41, 11, true);
    assert_eq!(out.result, Ok(()));
    assert_eq!(out.releases, vec![Release::KillAgentProcess(10)]);
    assert_eq!(
        reg.stop_agent("x").unwrap(),
        vec![Release::DisconnectAgent(0x41), Release::DestroyAgent(0x41), Release::KillAgentProcess(11)]
    );
    assert_eq!(reg.stop_agent("x").unwrap(), vec![]);
    assert_eq!(reg.stop_agent("y"), Err(BridgeError::InstanceNotFound));
    let out = reg.record_agent("y", 0x42, 12, true);
    assert_eq!(out.result, Err(BridgeError::InstanceNotFound));
    assert_eq!(
        out.releases,
        vec![Release::DisconnectAgent(0x42), Release::DestroyAgent(0x42), Release::KillAgentProcess(12)]
    );
    let out = reg.record_agent("x", 0, 13, true);
    assert_eq!(out.result, Err(BridgeError::HandleCreationFailed(HandleKind::AgentClient)));
    assert_eq!(out.releases, vec![Release::KillAgentProcess(13)]);
}

#[test]
fn agent_needs_a_resource() {
    let mut reg = Registry::new();
    assert_eq!(reg.agent_resource("x"), Err(BridgeError::InstanceNotFound));
    reg.create_instance("x".to_string());
    assert_eq!(
        reg.agent_resource("x"),
        Err(BridgeError::PreconditionViolation(Precondition::ResourceNotLoaded))
    );
}

#[test]
fn connection_status_follows_the_query() {
    assert_eq!(connection_status(Some(true)), ConnectionStatus::Connected);
    assert_eq!(connection_status(Some(false)), ConnectionStatus::Disconnected);
    assert_eq!(connection_status(None), ConnectionStatus::Disconnected);
}

#[test]
fn instance_state_counts_answers_of_held_handles() {
    let probe = StateProbe { controller: Some(1), resource: None, tasker: Some(3), task_ids: vec![4, 5] };
    let state = probe.into_state(true, true, false, true);
    assert!(state.connected);
    assert!(!state.resource_loaded);
    assert!(!state.tasker_inited);
    assert!(state.is_running);
    assert_eq!(state.task_ids, vec![4, 5]);
}

#[test]
fn archives_are_told_by_extension() {
    assert_eq!(archive_kind("update.TAR.GZ"), ArchiveKind::TarGz);
    assert_eq!(archive_kind("update.tgz"), ArchiveKind::TarGz);
    assert_eq!(archive_kind("update.zip"), ArchiveKind::Zip);
    assert_eq!(archive_kind("tgz"), ArchiveKind::Zip);
    assert_eq!(archive_kind(""), ArchiveKind::Zip);
}

#[test]
fn backup_names_have_two_digits() {
    assert_eq!(backup_file_name("config.json", 1), "config.json.bak01");
    assert_eq!(backup_file_name("dir", 42), "dir.bak42");
    assert_eq!(backup_file_name("x", 99), "x.bak99");
}

#[test]
fn texts_compare_by_characters() {
    assert!(text_eq("abc", "abc"));
    assert!(!text_eq("abc", "abd"));
    assert!(ends_with_text("file.tar.gz", ".gz"));
    assert!(!ends_with_text("gz", ".gz"));
    assert!(ends_with_text("名前.tgz", ".tgz"));
}

#[test]
fn uninitialised_scheduler_takes_no_tasks() {
    assert_eq!(
        maa_bridge::tasks::require_inited(false),
        Err(BridgeError::PreconditionViolation(Precondition::TaskerNotInitialized))
    );
    assert_eq!(maa_bridge::tasks::require_inited(true), Ok(()));
}

#[test]
fn failed_posts_are_skipped_in_batches() {
    assert_eq!(accepted_request_ids(&vec![MAA_INVALID_ID, MAA_INVALID_ID]), Vec::<i64>::new());
    assert_eq!(accepted_request_ids(&vec![]), Vec::<i64>::new());
    assert_eq!(accepted_request_ids(&vec![-4, MAA_INVALID_ID, 9]), vec![-4, 9]);
}

#[test]
fn archive_case_is_ignored() {
    assert_eq!(archive_kind("Update.TgZ"), ArchiveKind::TarGz);
    assert_eq!(archive_kind("UPDATE.ZIP"), ArchiveKind::Zip);
}

#[test]
fn every_instance_is_listed_once() {
    let mut reg = Registry::new();
    reg.create_instance("a".to_string());
    reg.create_instance("b".to_string());
    reg.create_instance("a".to_string());
    let mut ids = reg.instance_ids();
    ids.sort();
    assert_eq!(ids, vec!["a".to_string(), "b".to_string()]);
    reg.destroy_instance("a");
    assert_eq!(reg.instance_ids(), vec!["b".to_string()]);
}

#[test]
fn errors_read_as_plain_messages() {
    assert_eq!(BridgeError::InstanceNotFound.message(), "Instance not found");
    assert_eq!(BridgeError::LibraryNotLoaded.message(), "MaaFramework not initialized");
    assert_eq!(BridgeError::HandleCreationFailed(HandleKind::Tasker).message(), "Failed to create tasker");
    assert_eq!(BridgeError::RequestPostFailed(RequestKind::Connection).message(), "Failed to post connection");
    assert_eq!(
        BridgeError::PreconditionViolation(Precondition::TaskerNotInitialized).message(),
        "Tasker not properly initialized"
    );
    assert_eq!(
        BridgeError::InvalidMethodMask(MaskField::InputMethods, "x1".to_string()).message(),
        "Invalid input_methods 'x1'"
    );
    assert_eq!(
        BridgeError::AgentSpawnFailed("no such file".to_string()).message(),
        "Failed to start agent process: no such file"
    );
    assert_eq!(BridgeError::AgentConnectFailed.message(), "Failed to connect to agent");
    assert_eq!(BridgeError::LockPoisoned("p".to_string()).message(), "Lock poisoned: p");
    assert_eq!(
        BridgeError::UnsupportedController.message(),
        "PlayCover controller is only supported on macOS"
    );
}

#[test]
fn base64_text_becomes_data_url() {
    assert_eq!(maa_bridge::image::png_data_url("AQID"), "data:image/png;base64,AQID");
    assert_eq!(maa_bridge::image::png_data_url(""), "data:image/png;base64,");
}

#[test]
fn filter_outcomes_keep_or_drop() {
    assert!(maa_bridge::discovery::passes_on_outcome(None));
    assert!(maa_bridge::discovery::passes_on_outcome(Some(true)));
    assert!(!maa_bridge::discovery::passes_on_outcome(Some(false)));
}
