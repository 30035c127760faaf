//! The backend contract shared by all adapters: the vault descriptor, the
//! error taxonomy, and the capability trait each adapter satisfies.

use vstd::prelude::*;

verus! {

/// Identifies one vault: where its encrypted store lives and where its
/// decrypted view is exposed while mounted. Plain data; the descriptor owns no
/// external resource itself.
#[derive(Debug, Clone)]
pub struct VaultConfig {
    /// Path to the encrypted data store's root directory.
    pub vault_dir: String,
    /// Path where the decrypted view is exposed while the vault is mounted.
    pub mount_dir: String,
}

/// Everything a lifecycle operation can report. Each operation either fully
/// succeeds or surfaces exactly one of these; nothing is retried.
#[derive(Debug, Clone, PartialEq, Eq)]
pub enum VaultError {
    /// The external executable could not be launched at all.
    SpawnFailure,
    /// Writing the password to the process input failed, or waiting on the
    /// process failed.
    IoFailure,
    /// The process ended without a readable exit code (signal or crash).
    AbnormalTermination,
    /// The encryption tool exited non-zero; `reason` is the human-readable
    /// meaning from the adapter's exit-code table, or "Unknown error" for a
    /// code the table does not list.
    ToolReportedError { code: i32, reason: String },
    /// The unmount helper exited non-zero with the given code.
    UnmountFailure { code: i32 },
}

/// The capability contract every concrete adapter implements: probe whether
/// its tool is installed, then drive a vault through create, mount and close.
///
/// Implementations spawn one external process per call and block until it
/// exits, so they live outside this crate, next to the process plumbing; they
/// are expected to build their command lines and read the exit status through
/// the verified functions an adapter provides.
pub trait Backend {
    /// Whether the adapter's required executable(s) can be invoked here.
    /// Never raises: any failure to invoke collapses to `false`.
    fn is_available(&self) -> bool;

    /// Initializes a new encrypted store at `cfg.vault_dir` without mounting
    /// it. The password travels on the spawned process's standard input.
    fn create_vault(&self, cfg: &VaultConfig, password: &str) -> Result<(), VaultError>;

    /// Opens the store at `cfg.vault_dir` and exposes its decrypted contents
    /// at `cfg.mount_dir`. The password travels on standard input.
    fn mount_vault(&self, cfg: &VaultConfig, password: &str) -> Result<(), VaultError>;

    /// Unmounts `cfg.mount_dir`, ending the decrypted view.
    fn close_vault(&self, cfg: &VaultConfig) -> Result<(), VaultError>;
}

} // verus!
