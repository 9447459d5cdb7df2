//! Client-facing execution contract. Effective semantics only.

use vstd::prelude::*;

use crate::domain::error::ErrorCode;

verus! {

/// Advertised PTY size. Must match the isolated PTY adapter default.
pub const PTY_INITIAL_ROWS: u16 = 24;
pub const PTY_INITIAL_COLS: u16 = 80;

#[derive(Debug, Clone, Copy, PartialEq, Eq, Structural)]
pub enum ClientEnvironmentKind {
    Host,
    LinuxContainer,
}

#[derive(Debug, Clone, PartialEq, Eq, Structural)]
pub struct EnvironmentExecutionInfo {
    pub kind: ClientEnvironmentKind,
    /// Operator/workspace registration selects the environment. Not a tool argument.
    pub client_selectable: bool,
    /// Backend currently supports exec for this environment.
    pub exec_supported: bool,
    /// Backend currently supports workspace file reads.
    pub file_read_supported: bool,
    /// Backend currently supports workspace file writes / apply_patch.
    pub file_write_supported: bool,
}

#[derive(Debug, Clone, PartialEq, Eq, Structural)]
pub struct EffectivePermissionInfo {
    pub read: bool,
    pub write: bool,
    /// Process execution (wire name `exec`).
    pub execute: bool,
}

#[derive(Debug, Clone, PartialEq, Eq, Structural)]
pub struct PtyCapabilityInfo {
    pub supported: bool,
    pub default: bool,
    pub initial_rows: u16,
    pub initial_cols: u16,
    pub resize_supported: bool,
}

#[derive(Debug, Clone, PartialEq, Eq, Structural)]
pub struct ProcessCapabilityInfo {
    pub handles: bool,
    pub survives_request_end: bool,
    pub write_stdin: bool,
    pub incremental_read: bool,
    pub terminate: bool,
    /// `read_process` exposes one output stream; stdout/stderr identity
    /// and relative ordering are not preserved.
    pub output_combined: bool,
    pub tty: PtyCapabilityInfo,
}

/// Static eligibility of a file operation in this workspace: permission
/// and backend support only, not current occupancy.
#[derive(Debug, Clone, PartialEq, Eq, Structural)]
pub struct FileOperationInfo {
    pub available: bool,
}

#[derive(Debug, Clone, PartialEq, Eq, Structural)]
pub struct FileExecutionInfo {
    pub read: FileOperationInfo,
    pub find: FileOperationInfo,
    pub patch: FileOperationInfo,
}

/// Static eligibility of a managed process in this workspace.
#[derive(Debug, Clone, PartialEq, Eq)]
pub struct ProcessExecutionInfo {
    pub available: bool,
    pub capabilities: Option<ProcessCapabilityInfo>,
}

#[derive(Debug, Clone, PartialEq, Eq, Structural)]
pub struct WorkspaceSerializationInfo {
    pub live_process_holds_mutation_lease: bool,
    pub parallel_exec: bool,
    pub read_while_process_live: bool,
    pub find_while_process_live: bool,
    pub patch_while_process_live: bool,
    pub conflict_error: ErrorCode,
}

#[derive(Debug, Clone, Copy, PartialEq, Eq, Structural)]
pub enum CommandSandboxState {
    /// No command sandbox (wire name `none`).
    Unsandboxed,
    LinuxSandbox,
}

#[derive(Debug, Clone, PartialEq, Eq, Structural)]
pub struct IsolationInfo {
    pub file_tools_workspace_scoped: bool,
    pub command_sandbox: CommandSandboxState,
}

#[derive(Debug, Clone, Copy, PartialEq, Eq, Structural)]
pub enum NetworkPolicyState {
    Restricted,
    Enabled,
}

#[derive(Debug, Clone, Copy, PartialEq, Eq, Structural)]
pub enum NetworkEnforcementState {
    /// Nothing enforces the network policy (wire name `none`).
    Unenforced,
    Enforced,
}

#[derive(Debug, Clone, PartialEq, Eq, Structural)]
pub struct NetworkInfo {
    pub policy: NetworkPolicyState,
    pub enforcement: NetworkEnforcementState,
    pub client_may_escalate: bool,
}

#[derive(Debug, Clone, PartialEq, Eq)]
pub struct WorkspaceExecutionInfo {
    pub environment: EnvironmentExecutionInfo,
    pub permissions: EffectivePermissionInfo,
    pub files: FileExecutionInfo,
    pub process: ProcessExecutionInfo,
    pub serialization: WorkspaceSerializationInfo,
    pub isolation: IsolationInfo,
    pub network: NetworkInfo,
}

/// The fixed process capabilities advertised whenever exec is available.
pub open spec fn advertised_process_capabilities() -> ProcessCapabilityInfo {
    ProcessCapabilityInfo {
        handles: true,
        survives_request_end: true,
        write_stdin: true,
        incremental_read: true,
        terminate: true,
        output_combined: true,
        tty: PtyCapabilityInfo {
            supported: true,
            default: false,
            initial_rows: PTY_INITIAL_ROWS,
            initial_cols: PTY_INITIAL_COLS,
            resize_supported: false,
        },
    }
}

/// The fixed occupancy rules: one live process holds the mutation lease.
pub open spec fn advertised_serialization() -> WorkspaceSerializationInfo {
    WorkspaceSerializationInfo {
        live_process_holds_mutation_lease: true,
        parallel_exec: false,
        read_while_process_live: true,
        find_while_process_live: true,
        patch_while_process_live: false,
        conflict_error: ErrorCode::WorkspaceBusy,
    }
}

impl WorkspaceExecutionInfo {
    /// Assemble the advertised contract from already-evaluated axes.
    /// `files.*.available` and `process.available` are permission and
    /// backend support, not occupancy.
    pub fn from_effective(
        environment: EnvironmentExecutionInfo,
        permissions: EffectivePermissionInfo,
        network_policy: NetworkPolicyState,
    ) -> (r: Self)
        ensures
            r.environment == environment,
            r.permissions == permissions,
            r.files.read.available == (permissions.read && environment.file_read_supported),
            r.files.find.available == (permissions.read && environment.file_read_supported),
            r.files.patch.available == (permissions.write && environment.file_write_supported),
            r.process.available == (permissions.execute && environment.exec_supported),
            r.process.capabilities == (if permissions.execute && environment.exec_supported {
                Some(advertised_process_capabilities())
            } else {
                None
            }),
            r.serialization == advertised_serialization(),
            r.isolation == (IsolationInfo {
                file_tools_workspace_scoped: true,
                command_sandbox: CommandSandboxState::Unsandboxed,
            }),
            r.network == (NetworkInfo {
                policy: network_policy,
                enforcement: NetworkEnforcementState::Unenforced,
                client_may_escalate: false,
            }),
    {
        let read_available = permissions.read && environment.file_read_supported;
        let files = FileExecutionInfo {
            read: FileOperationInfo { available: read_available },
            find: FileOperationInfo { available: read_available },
            patch: FileOperationInfo {
                available: permissions.write && environment.file_write_supported,
            },
        };
        let process_available = permissions.execute && environment.exec_supported;
        let capabilities = if process_available {
            Some(
                ProcessCapabilityInfo {
                    handles: true,
                    survives_request_end: true,
                    write_stdin: true,
                    incremental_read: true,
                    terminate: true,
                    output_combined: true,
                    tty: PtyCapabilityInfo {
                        supported: true,
                        default: false,
                        initial_rows: PTY_INITIAL_ROWS,
                        initial_cols: PTY_INITIAL_COLS,
                        resize_supported: false,
                    },
                },
            )
        } else {
            None
        };
        WorkspaceExecutionInfo {
            environment,
            permissions,
            files,
            process: ProcessExecutionInfo { available: process_available, capabilities },
            serialization: WorkspaceSerializationInfo {
                live_process_holds_mutation_lease: true,
                parallel_exec: false,
                read_while_process_live: true,
                find_while_process_live: true,
                patch_while_process_live: false,
                conflict_error: ErrorCode::WorkspaceBusy,
            },
            isolation: IsolationInfo {
                file_tools_workspace_scoped: true,
                command_sandbox: CommandSandboxState::Unsandboxed,
            },
            network: NetworkInfo {
                policy: network_policy,
                enforcement: NetworkEnforcementState::Unenforced,
                client_may_escalate: false,
            },
        }
    }

    /// Overlay after a successful Linux helper probe. Restricted network
    /// advertises OS enforcement; Enabled stays unenforced.
    pub fn with_linux_command_sandbox(self, network_restricted: bool) -> (r: Self)
        ensures
            r.environment == self.environment,
            r.permissions == self.permissions,
            r.files == self.files,
            r.process == self.process,
            r.serialization == self.serialization,
            r.isolation == (IsolationInfo {
                file_tools_workspace_scoped: self.isolation.file_tools_workspace_scoped,
                command_sandbox: CommandSandboxState::LinuxSandbox,
            }),
            r.network.policy == self.network.policy,
            r.network.enforcement == (if network_restricted {
                NetworkEnforcementState::Enforced
            } else {
                self.network.enforcement
            }),
            r.network.client_may_escalate == (if network_restricted {
                false
            } else {
                self.network.client_may_escalate
            }),
    {
        let mut out = self;
        out.isolation.command_sandbox = CommandSandboxState::LinuxSandbox;
        if network_restricted {
            out.network.enforcement = NetworkEnforcementState::Enforced;
            out.network.client_may_escalate = false;
        }
        out
    }
}

} // verus!
