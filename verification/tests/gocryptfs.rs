use vault_backends::backend::VaultConfig;
use vault_backends::backend::VaultError;
use vault_backends::gocryptfs::stdin_payload;
use vault_backends::gocryptfs::GoCryptFs;

fn sample_config() -> VaultConfig {
    VaultConfig {
        vault_dir: "/data/vault".to_string(),
        mount_dir: "/mnt/clear".to_string(),
    }
}

#[test]
fn exit_code_zero_is_no_error() {
    assert_eq!(GoCryptFs::code_to_err(0), None);
}

#[test]
fn exit_code_table_matches_documentation() {
    let cases: [(i32, &str); 7] = [
        (6, "The vault directory is not empty"),
        (10, "The mount directory is not empty"),
        (12, "The password is incorrect"),
        (22, "The password is empty"),
        (23, "Couldn't read configuration file"),
        (24, "Couldn't write configuration file"),
        (26, "Filesystem check reported an error"),
    ];
    for (code, reason) in cases {
        assert_eq!(
            GoCryptFs::code_to_err(code),
            Some(VaultError::ToolReportedError {
                code,
                reason: reason.to_string(),
            })
        );
    }
}

#[test]
fn unlisted_codes_yield_unknown_error() {
    let unlisted: [i32; 6] = [1, 5, 11, 25, 99, -1];
    for code in unlisted {
        assert_eq!(
            GoCryptFs::code_to_err(code),
            Some(VaultError::ToolReportedError {
                code,
                reason: "Unknown error".to_string(),
            })
        );
    }
}

#[test]
fn create_then_mount_with_correct_password_succeeds() {
    // A fresh create against an empty vault directory exits 0, and the mount
    // that follows, with the correct password, exits 0 as well.
    assert_eq!(GoCryptFs::interpret_tool_exit(Some(0)), Ok(()));
    assert_eq!(GoCryptFs::interpret_tool_exit(Some(0)), Ok(()));
}

#[test]
fn mount_with_incorrect_password_reports_reason() {
    assert_eq!(
        GoCryptFs::interpret_tool_exit(Some(12)),
        Err(VaultError::ToolReportedError {
            code: 12,
            reason: "The password is incorrect".to_string(),
        })
    );
}

#[test]
fn mount_against_nonempty_mount_dir_reports_reason() {
    assert_eq!(
        GoCryptFs::interpret_tool_exit(Some(10)),
        Err(VaultError::ToolReportedError {
            code: 10,
            reason: "The mount directory is not empty".to_string(),
        })
    );
}

#[test]
fn close_of_unmounted_dir_reports_helper_code() {
    assert_eq!(
        GoCryptFs::interpret_unmount_exit(Some(1)),
        Err(VaultError::UnmountFailure { code: 1 })
    );
    assert_eq!(
        GoCryptFs::interpret_unmount_exit(Some(32)),
        Err(VaultError::UnmountFailure { code: 32 })
    );
}

#[test]
fn close_success_on_exit_zero() {
    assert_eq!(GoCryptFs::interpret_unmount_exit(Some(0)), Ok(()));
}

#[test]
fn abnormal_termination_is_never_a_table_code() {
    assert_eq!(
        GoCryptFs::interpret_tool_exit(None),
        Err(VaultError::AbnormalTermination)
    );
    assert_eq!(
        GoCryptFs::interpret_unmount_exit(None),
        Err(VaultError::AbnormalTermination)
    );
}

#[test]
fn unavailable_when_probe_cannot_run() {
    assert!(!GoCryptFs::interpret_probe(None));
}

#[test]
fn unavailable_when_probe_exits_nonzero() {
    assert!(!GoCryptFs::interpret_probe(Some(1)));
    assert!(!GoCryptFs::interpret_probe(Some(127)));
}

#[test]
fn available_when_probe_exits_zero() {
    assert!(GoCryptFs::interpret_probe(Some(0)));
}

#[test]
fn default_executable_names() {
    let backend = GoCryptFs::default();
    assert_eq!(backend.command_path, "gocryptfs");
    assert_eq!(backend.fusermount_path, "fusermount");
}

#[test]
fn create_arguments_have_documented_shape() {
    let backend = GoCryptFs::default();
    let cfg = sample_config();
    assert_eq!(
        backend.create_args(&cfg),
        vec![
            "--init".to_string(),
            "-q".to_string(),
            "--".to_string(),
            "/data/vault".to_string(),
        ]
    );
}

#[test]
fn mount_arguments_have_documented_shape() {
    let backend = GoCryptFs::default();
    let cfg = sample_config();
    assert_eq!(
        backend.mount_args(&cfg),
        vec![
            "-q".to_string(),
            "--".to_string(),
            "/data/vault".to_string(),
            "/mnt/clear".to_string(),
        ]
    );
}

#[test]
fn unmount_arguments_target_mount_dir_only() {
    let backend = GoCryptFs::default();
    let cfg = sample_config();
    assert_eq!(
        backend.unmount_args(&cfg),
        vec!["-u".to_string(), "/mnt/clear".to_string()]
    );
}

#[test]
fn probe_arguments_are_a_version_query() {
    let backend = GoCryptFs::default();
    assert_eq!(backend.probe_args(), vec!["--version".to_string()]);
}

#[test]
fn password_never_appears_in_arguments() {
    let backend = GoCryptFs::default();
    let cfg = sample_config();
    let password = "swordfish";
    assert!(!backend
        .create_args(&cfg)
        .iter()
        .any(|arg| arg == password));
    assert!(!backend.mount_args(&cfg).iter().any(|arg| arg == password));
    assert!(!backend
        .unmount_args(&cfg)
        .iter()
        .any(|arg| arg == password));
    assert!(!backend.probe_args().iter().any(|arg| arg == password));
}

#[test]
fn stdin_carries_exactly_the_password() {
    assert_eq!(stdin_payload("swordfish"), "swordfish");
    assert_eq!(stdin_payload(""), "");
}
