//! The gocryptfs-style adapter: its executable names, the exact command lines
//! it builds for each lifecycle operation, and its exit-code table.

use vstd::prelude::*;

use crate::backend::VaultConfig;
use crate::backend::VaultError;

verus! {

/// Adapter for a gocryptfs-style encryption tool. Holds only rarely-changing
/// configuration: the tool's executable path and the path of the separate
/// unmount helper. Stateless between calls.
#[derive(Debug, Clone)]
pub struct GoCryptFs {
    /// Path (or bare name, resolved via the search path) of the encryption
    /// tool itself.
    pub command_path: String,
    /// Path of the unmount helper used to close a mounted vault.
    pub fusermount_path: String,
}

impl Default for GoCryptFs {
    /// The default executable names, resolved via the process's search path.
    fn default() -> (r: Self)
        ensures
            r.command_path@ == "gocryptfs"@,
            r.fusermount_path@ == "fusermount"@,
    {
        GoCryptFs {
            command_path: String::from_str("gocryptfs"),
            fusermount_path: String::from_str("fusermount"),
        }
    }
}

/// The tool's documented failure reason for a non-zero exit code: the mapped
/// string for a listed code, "Unknown error" for any other.
pub open spec fn reason_of(code: int) -> Seq<char> {
    if code == 6 {
        "The vault directory is not empty"@
    } else if code == 10 {
        "The mount directory is not empty"@
    } else if code == 12 {
        "The password is incorrect"@
    } else if code == 22 {
        "The password is empty"@
    } else if code == 23 {
        "Couldn't read configuration file"@
    } else if code == 24 {
        "Couldn't write configuration file"@
    } else if code == 26 {
        "Filesystem check reported an error"@
    } else {
        "Unknown error"@
    }
}

/// The whole exit-code table: exit code 0 is success and maps to no error;
/// every other code maps to its reason.
pub open spec fn spec_code_to_err(code: int) -> Option<Seq<char>> {
    if code == 0 {
        None
    } else {
        Some(reason_of(code))
    }
}

/// The views of an argument list, element by element.
pub open spec fn arg_views(args: Seq<String>) -> Seq<Seq<char>> {
    args.map_values(|s: String| s@)
}

/// The command line that creates a vault: quiet mode, the init flag, the
/// explicit argument terminator, then the vault directory. The password is
/// never among the arguments.
pub open spec fn create_args_spec(cfg: VaultConfig) -> Seq<Seq<char>> {
    seq!["--init"@, "-q"@, "--"@, cfg.vault_dir@]
}

/// The command line that mounts a vault: quiet mode, the argument terminator,
/// then the vault and mount directories. The password is never among the
/// arguments.
pub open spec fn mount_args_spec(cfg: VaultConfig) -> Seq<Seq<char>> {
    seq!["-q"@, "--"@, cfg.vault_dir@, cfg.mount_dir@]
}

/// The command line for the unmount helper: its unmount flag and the mount
/// directory as sole target.
pub open spec fn unmount_args_spec(cfg: VaultConfig) -> Seq<Seq<char>> {
    seq!["-u"@, cfg.mount_dir@]
}

/// The command line of the availability probe: a harmless version query.
pub open spec fn probe_args_spec() -> Seq<Seq<char>> {
    seq!["--version"@]
}

impl GoCryptFs {
    /// Translates one exit code of the encryption tool through the adapter's
    /// fixed table: `None` for success (exit code 0), otherwise the error the
    /// tool reported, with its documented reason.
    pub fn code_to_err(code: i32) -> (r: Option<VaultError>)
        ensures
            code == 0 ==> r is None,
            code != 0 ==> (r matches Some(VaultError::ToolReportedError { code: c, reason })
                && c == code && reason@ == reason_of(code as int)),
    {
        if code == 0 {
            None
        } else {
            let msg: &str = if code == 6 {
                "The vault directory is not empty"
            } else if code == 10 {
                "The mount directory is not empty"
            } else if code == 12 {
                "The password is incorrect"
            } else if code == 22 {
                "The password is empty"
            } else if code == 23 {
                "Couldn't read configuration file"
            } else if code == 24 {
                "Couldn't write configuration file"
            } else if code == 26 {
                "Filesystem check reported an error"
            } else {
                "Unknown error"
            };
            Some(VaultError::ToolReportedError { code, reason: String::from_str(msg) })
        }
    }

    /// The arguments for creating a vault at `cfg.vault_dir`. The tool reads
    /// the password from standard input, so it is not a parameter here.
    pub fn create_args(&self, cfg: &VaultConfig) -> (r: Vec<String>)
        ensures
            arg_views(r@) == create_args_spec(*cfg),
    {
        let mut args: Vec<String> = Vec::new();
        args.push(String::from_str("--init"));
        args.push(String::from_str("-q"));
        args.push(String::from_str("--"));
        args.push(cfg.vault_dir.clone());
        proof {
            assert(arg_views(args@) =~= create_args_spec(*cfg));
        }
        args
    }

    /// The arguments for mounting the vault at `cfg.vault_dir` onto
    /// `cfg.mount_dir`. The tool reads the password from standard input, so it
    /// is not a parameter here.
    pub fn mount_args(&self, cfg: &VaultConfig) -> (r: Vec<String>)
        ensures
            arg_views(r@) == mount_args_spec(*cfg),
    {
        let mut args: Vec<String> = Vec::new();
        args.push(String::from_str("-q"));
        args.push(String::from_str("--"));
        args.push(cfg.vault_dir.clone());
        args.push(cfg.mount_dir.clone());
        proof {
            assert(arg_views(args@) =~= mount_args_spec(*cfg));
        }
        args
    }

    /// The arguments for the unmount helper closing `cfg.mount_dir`.
    pub fn unmount_args(&self, cfg: &VaultConfig) -> (r: Vec<String>)
        ensures
            arg_views(r@) == unmount_args_spec(*cfg),
    {
        let mut args: Vec<String> = Vec::new();
        args.push(String::from_str("-u"));
        args.push(cfg.mount_dir.clone());
        proof {
            assert(arg_views(args@) =~= unmount_args_spec(*cfg));
        }
        args
    }

    /// The arguments of the availability probe run against the tool.
    pub fn probe_args(&self) -> (r: Vec<String>)
        ensures
            arg_views(r@) == probe_args_spec(),
    {
        let mut args: Vec<String> = Vec::new();
        args.push(String::from_str("--version"));
        proof {
            assert(arg_views(args@) =~= probe_args_spec());
        }
        args
    }

    /// Reads the exit status of the encryption tool after a create or mount:
    /// `None` stands for a process that ended without an exit code (signal or
    /// crash), which is its own fatal condition and is never confused with a
    /// code from the table.
    pub fn interpret_tool_exit(exit: Option<i32>) -> (r: Result<(), VaultError>)
        ensures
            exit is None ==> r == Result::<(), VaultError>::Err(VaultError::AbnormalTermination),
            exit matches Some(c) ==> ((c == 0 ==> r is Ok) && (c != 0 ==> (r matches Err(
                VaultError::ToolReportedError { code, reason },
            ) && code == c && reason@ == reason_of(c as int)))),
    {
        match exit {
            None => Err(VaultError::AbnormalTermination),
            Some(code) => match GoCryptFs::code_to_err(code) {
                None => Ok(()),
                Some(e) => Err(e),
            },
        }
    }

    /// Reads the exit status of the unmount helper: its exit status is checked
    /// directly, with no code-to-reason table beyond succeeded / failed with
    /// the reported code.
    pub fn interpret_unmount_exit(exit: Option<i32>) -> (r: Result<(), VaultError>)
        ensures
            exit is None ==> r == Result::<(), VaultError>::Err(VaultError::AbnormalTermination),
            exit matches Some(c) ==> ((c == 0 ==> r is Ok) && (c != 0 ==> r == Result::<
                (),
                VaultError,
            >::Err(VaultError::UnmountFailure { code: c }))),
    {
        match exit {
            None => Err(VaultError::AbnormalTermination),
            Some(code) => {
                if code == 0 {
                    Ok(())
                } else {
                    Err(VaultError::UnmountFailure { code })
                }
            },
        }
    }

    /// Reads the outcome of the availability probe: the adapter is available
    /// exactly when the probe process ran and exited with code 0. `None`
    /// stands for any failure to invoke the probe at all, which collapses to
    /// `false`; this function never fails.
    pub fn interpret_probe(exit: Option<i32>) -> (r: bool)
        ensures
            r <==> (exit matches Some(c) && c == 0),
    {
        match exit {
            None => false,
            Some(code) => code == 0,
        }
    }
}

/// Law: the exit-code table as a whole. Exit code 0 always means success and
/// maps to no error; every listed code maps to its documented reason; any code
/// not in the table maps to "Unknown error".
pub proof fn lemma_exit_code_table()
    ensures
        spec_code_to_err(0) is None,
        spec_code_to_err(6) == Some("The vault directory is not empty"@),
        spec_code_to_err(10) == Some("The mount directory is not empty"@),
        spec_code_to_err(12) == Some("The password is incorrect"@),
        spec_code_to_err(22) == Some("The password is empty"@),
        spec_code_to_err(23) == Some("Couldn't read configuration file"@),
        spec_code_to_err(24) == Some("Couldn't write configuration file"@),
        spec_code_to_err(26) == Some("Filesystem check reported an error"@),
        forall|code: int|
            !(code == 0 || code == 6 || code == 10 || code == 12 || code == 22 || code == 23
                || code == 24 || code == 26) ==> spec_code_to_err(code) == Some("Unknown error"@),
{
}

/// Law: the password handed to `create_vault` never appears in the argument
/// list built for it; only the process's standard input carries it. Stated for
/// any password that is not spelled exactly like one of the fixed flags or the
/// vault directory itself (a password equal to `cfg.vault_dir` coincides with
/// that argument as a string, though it still was never passed as one).
pub proof fn lemma_password_not_in_create_args(cfg: VaultConfig, password: Seq<char>)
    requires
        password != "--init"@,
        password != "-q"@,
        password != "--"@,
        password != cfg.vault_dir@,
    ensures
        !create_args_spec(cfg).contains(password),
{
    assert forall|i: int| 0 <= i < create_args_spec(cfg).len() implies create_args_spec(cfg)[i]
        != password by {
        assert(create_args_spec(cfg)[0] == "--init"@);
        assert(create_args_spec(cfg)[1] == "-q"@);
        assert(create_args_spec(cfg)[2] == "--"@);
        assert(create_args_spec(cfg)[3] == cfg.vault_dir@);
    }
}

/// Law: the password handed to `mount_vault` never appears in the argument
/// list built for it; only the process's standard input carries it. Stated for
/// any password that is not spelled exactly like one of the fixed flags or one
/// of the descriptor's two directories.
pub proof fn lemma_password_not_in_mount_args(cfg: VaultConfig, password: Seq<char>)
    requires
        password != "-q"@,
        password != "--"@,
        password != cfg.vault_dir@,
        password != cfg.mount_dir@,
    ensures
        !mount_args_spec(cfg).contains(password),
{
    assert forall|i: int| 0 <= i < mount_args_spec(cfg).len() implies mount_args_spec(cfg)[i]
        != password by {
        assert(mount_args_spec(cfg)[0] == "-q"@);
        assert(mount_args_spec(cfg)[1] == "--"@);
        assert(mount_args_spec(cfg)[2] == cfg.vault_dir@);
        assert(mount_args_spec(cfg)[3] == cfg.mount_dir@);
    }
}

/// The bytes delivered to a spawned tool's standard input: exactly the
/// password, nothing more. This is the only channel the password travels on.
pub fn stdin_payload(password: &str) -> (r: String)
    ensures
        r@ == password@,
{
    String::from_str(password)
}

} // verus!
