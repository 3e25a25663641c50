use std::path::{Path, PathBuf};

use keylime_agent::error::Error;
use keylime_agent::revocation::{
    action_command, candidate_paths, compose_action_list, is_safe_action_name, get_revocation_cert_path, lookup_action,
    parse_revocation_body, process_revocation, record_action_output, resolve_action,
    revocation_message, ActionOutput, KeylimeConfig, RevocationMessage, REV_CERT,
};

struct Layout {
    _root: tempfile::TempDir,
    _files: Vec<tempfile::NamedTempFile>,
    payload_dir: String,
    actions_dir: String,
}

fn make_dir(parent: &Path, name: &str) -> PathBuf {
    tempfile::Builder::new()
        .prefix(name)
        .rand_bytes(0)
        .tempdir_in(parent)
        .unwrap()
        .keep()
}

fn make_file(dir: &Path, name: &str) -> tempfile::NamedTempFile {
    tempfile::Builder::new()
        .prefix(name)
        .rand_bytes(0)
        .tempfile_in(dir)
        .unwrap()
}

// tests/actions holds the shim, a pre-installed python action and a
// pre-installed shell action; tests/unzipped holds the payload's ones.
fn layout() -> Layout {
    let root = tempfile::tempdir().unwrap();
    let work_dir = make_dir(root.path(), "tests");
    let actions = make_dir(&work_dir, "actions");
    let unzipped = make_dir(&work_dir, "unzipped");
    let files = vec![
        make_file(&actions, "shim.py"),
        make_file(&actions, "local_action_hello.py"),
        make_file(&actions, "local_action_hello_shell.sh"),
        make_file(&unzipped, "local_action_payload.py"),
        make_file(&unzipped, "local_action_payload_shell.sh"),
    ];
    let payload_dir = format!("{}", work_dir.join("unzipped/").display());
    let actions_dir = format!("{}", work_dir.join("actions/").display());
    Layout { _root: root, _files: files, payload_dir, actions_dir }
}

#[test]
fn get_revocation_cert_path_default() {
    let test_config = KeylimeConfig::default();
    let revocation_cert_path = get_revocation_cert_path(&test_config).unwrap();
    let mut expected = PathBuf::from(&test_config.work_dir);
    expected.push("secure/unzipped/");
    expected.push(REV_CERT);
    assert_eq!(PathBuf::from(revocation_cert_path), expected);
}

#[test]
fn get_revocation_cert_path_absolute() {
    let test_config = KeylimeConfig {
        revocation_cert: String::from("/test/cert.crt"),
        ..Default::default()
    };
    let revocation_cert_path = get_revocation_cert_path(&test_config).unwrap();
    assert_eq!(PathBuf::from(revocation_cert_path), PathBuf::from("/test/cert.crt"));
}

#[test]
fn get_revocation_cert_path_relative() {
    let test_config = KeylimeConfig {
        revocation_cert: String::from("cert.crt"),
        ..Default::default()
    };
    let revocation_cert_path = get_revocation_cert_path(&test_config).unwrap();
    let expected = Path::new(&test_config.work_dir).join("cert.crt");
    assert_eq!(PathBuf::from(revocation_cert_path), expected);
}

#[test]
fn get_revocation_cert_path_empty() {
    let test_config = KeylimeConfig {
        revocation_cert: String::from(""),
        ..Default::default()
    };
    assert!(
        get_revocation_cert_path(&test_config).is_err(),
        "revocation_cert is not set in configuration"
    );
}

#[test]
fn get_revocation_cert_path_trimmed_and_blank() {
    let test_config = KeylimeConfig {
        revocation_cert: String::from("  default \n"),
        work_dir: String::from("/w"),
        ..Default::default()
    };
    assert_eq!(
        get_revocation_cert_path(&test_config).unwrap(),
        "/w/secure/unzipped/RevocationNotifier-cert.crt"
    );
    let blank = KeylimeConfig {
        revocation_cert: String::from("   "),
        ..Default::default()
    };
    match get_revocation_cert_path(&blank) {
        Err(Error::Configuration(m)) => {
            assert_eq!(m, "revocation_cert is not set in configuration")
        }
        _ => panic!("expected a configuration error"),
    }
}

#[test]
fn test_lookup_action() {
    let l = layout();
    let payload_dir = l.payload_dir.as_str();
    let actions_dir = l.actions_dir.as_str();

    // Test local python action
    let expected = format!("{}", Path::new(actions_dir).join("shim.py").display());
    assert_eq!(
        lookup_action(payload_dir, actions_dir, "local_action_hello", true).unwrap(),
        (expected, true, false)
    );

    // Test local non-python action
    let expected = format!(
        "{}",
        Path::new(actions_dir).join("local_action_hello_shell.sh").display()
    );
    assert_eq!(
        lookup_action(payload_dir, actions_dir, "local_action_hello_shell.sh", true).unwrap(),
        (expected, false, false)
    );

    // Test payload python action
    let expected = format!("{}", Path::new(actions_dir).join("shim.py").display());
    assert_eq!(
        lookup_action(payload_dir, actions_dir, "local_action_payload", true).unwrap(),
        (expected, true, true),
    );

    // Test payload non-python action
    let expected = format!(
        "{}",
        Path::new(payload_dir).join("local_action_payload_shell.sh").display()
    );
    assert_eq!(
        lookup_action(payload_dir, actions_dir, "local_action_payload_shell.sh", true).unwrap(),
        (expected, false, true)
    );

    // Test that disallowing payload works
    match lookup_action(payload_dir, actions_dir, "local_action_payload_shell.sh", false) {
        Err(Error::NotFound(m)) => {
            assert_eq!(m, "Could not find action local_action_payload_shell.sh")
        }
        _ => panic!("expected a not-found error"),
    }

    // Test non-existent action
    match lookup_action(payload_dir, actions_dir, "local_action_non_existent", true) {
        Err(Error::NotFound(m)) => {
            assert_eq!(m, "Could not find action local_action_non_existent")
        }
        _ => panic!("expected a not-found error"),
    }
}

#[test]
fn resolve_action_follows_the_ladder() {
    let r = resolve_action("/p", "/a", "act", true, [true, true, true, true]).unwrap();
    assert_eq!(r, ("/a/act".to_string(), false, false));
    let r = resolve_action("/p", "/a", "act", true, [false, true, true, true]).unwrap();
    assert_eq!(r, ("/p/act".to_string(), false, true));
    let r = resolve_action("/p", "/a", "act", true, [false, false, true, true]).unwrap();
    assert_eq!(r, ("/a/shim.py".to_string(), true, false));
    let r = resolve_action("/p", "/a", "act", true, [false, false, false, true]).unwrap();
    assert_eq!(r, ("/a/shim.py".to_string(), true, true));
}

#[test]
fn resolve_action_skips_payload_when_disallowed() {
    let r = resolve_action("/p", "/a", "act", false, [false, true, true, true]).unwrap();
    assert_eq!(r, ("/a/shim.py".to_string(), true, false));
    match resolve_action("/p", "/a", "act", false, [false, true, false, true]) {
        Err(Error::NotFound(m)) => assert_eq!(m, "Could not find action act"),
        _ => panic!("expected a not-found error"),
    }
}

#[test]
fn action_command_for_interpreted_and_native() {
    let resolved = ("/a/shim.py".to_string(), true, true);
    let c = action_command("/p", "/a", "act", &resolved, "/w/x.json", "/w");
    assert_eq!(c.program, "/a/shim.py");
    assert_eq!(c.args, vec!["act".to_string(), "/w/x.json".to_string()]);
    assert_eq!(c.current_dir, "/w");
    assert_eq!(c.python_path, Some("/p".to_string()));

    let resolved = ("/a/shim.py".to_string(), true, false);
    let c = action_command("/p", "/a", "act", &resolved, "/w/x.json", "/w");
    assert_eq!(c.python_path, Some("/a".to_string()));

    let resolved = ("/a/act".to_string(), false, false);
    let c = action_command("/p", "/a", "act", &resolved, "/w/x.json", "/w");
    assert_eq!(c.program, "/a/act");
    assert_eq!(c.args, vec!["/w/x.json".to_string()]);
    assert_eq!(c.python_path, None);
}

#[test]
fn action_list_from_config_and_file() {
    let file = "local_action_hello\nlocal_action_payload\n\n  local_action_hello_shell.sh \nlocal_action_payload_shell.sh\n";
    let list = compose_action_list("local_action_hello, local_action_payload", Some(file));
    assert_eq!(list.len(), 6);
    assert_eq!(
        list,
        vec![
            "local_action_hello",
            "local_action_payload",
            "local_action_hello",
            "local_action_payload",
            "local_action_hello_shell.sh",
            "local_action_payload_shell.sh",
        ]
    );
    assert!(compose_action_list("", None).is_empty());
    assert_eq!(compose_action_list(" a ,, b,", None), vec!["a", "b"]);
}

#[test]
fn failing_action_reports_name_code_and_stderr() {
    let mut outputs = Vec::new();
    let ok = ActionOutput { code: Some(0), stdout: b"there\n".to_vec(), stderr: vec![] };
    assert!(record_action_output(&mut outputs, "first", ok).is_ok());
    assert_eq!(outputs.len(), 1);
    let bad = ActionOutput { code: Some(1), stdout: vec![], stderr: b"boom".to_vec() };
    match record_action_output(&mut outputs, "second", bad) {
        Err(Error::Script(name, code, stderr)) => {
            assert_eq!(name, "second");
            assert_eq!(code, Some(1));
            assert_eq!(stderr, b"boom".to_vec());
        }
        _ => panic!("expected a script error"),
    }
    assert_eq!(outputs.len(), 1);
}

#[test]
fn unverified_notification_starts_nothing() {
    let m = RevocationMessage { msg: "{\"type\":\"revocation\"}".to_string(), signature: "sig".to_string() };
    assert!(matches!(
        process_revocation(&m, false, "local_action_hello", None),
        Err(Error::InvalidRequest)
    ));
    let plan = process_revocation(&m, true, "local_action_hello", Some("b\n")).unwrap();
    assert_eq!(plan.actions, vec!["local_action_hello", "b"]);
    assert_eq!(plan.payload, "{\"type\":\"revocation\"}");
    let bad = RevocationMessage { msg: "not json".to_string(), signature: "sig".to_string() };
    assert!(matches!(process_revocation(&bad, true, "a", None), Err(Error::InvalidRequest)));
}

#[test]
fn revocation_body_needs_msg_and_signature() {
    let m = parse_revocation_body("{\"msg\": \"{}\", \"signature\": \"c2ln\"}").unwrap();
    assert_eq!(m.msg, "{}");
    assert_eq!(m.signature, "c2ln");
    assert!(matches!(parse_revocation_body("{\"msg\": \"{}\"}"), Err(Error::InvalidRequest)));
    assert!(matches!(
        parse_revocation_body("{\"msg\": 1, \"signature\": \"x\"}"),
        Err(Error::InvalidRequest)
    ));
    assert!(matches!(parse_revocation_body("{"), Err(Error::InvalidRequest)));
    assert!(matches!(revocation_message(None, Some("m".to_string())), Err(Error::InvalidRequest)));
}

#[test]
fn names_that_leave_their_directory_are_not_found() {
    for name in ["../unzipped/local_action_payload_shell.sh", "a/b", "/bin/sh", "..", ".", ""] {
        assert!(!is_safe_action_name(name));
        match resolve_action("/p", "/a", name, false, [true, true, true, true]) {
            Err(Error::NotFound(m)) => assert_eq!(m, format!("Could not find action {}", name)),
            _ => panic!("expected a not-found error"),
        }
    }
    assert!(is_safe_action_name("local_action_hello_shell.sh"));
    assert!(is_safe_action_name("..py"));
    let l = layout();
    assert!(lookup_action(&l.payload_dir, &l.actions_dir, "../unzipped/local_action_payload_shell.sh", false).is_err());
}

#[test]
fn candidate_paths_in_search_order() {
    assert_eq!(
        candidate_paths("/p", "/a/", "act"),
        vec!["/a/act", "/p/act", "/a/act.py", "/p/act.py"]
    );
}

#[test]
fn payload_is_the_compact_inner_message() {
    let raw = "{\"msg\": \"{ \\\"type\\\" : \\\"revocation\\\", \\\"ip\\\": \\\"10.0.0.1\\\" }\", \"signature\": \"c2ln\"}";
    let m = parse_revocation_body(raw).unwrap();
    let plan = process_revocation(&m, true, "a", None).unwrap();
    // serde_json keeps object members ordered by key.
    assert_eq!(plan.payload, "{\"ip\":\"10.0.0.1\",\"type\":\"revocation\"}");
}
