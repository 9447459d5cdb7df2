//! Operator-registered execution location. Not an MCP tool field.

use vstd::prelude::*;

use crate::domain::error::{ErrorBody, ErrorCode};
use crate::text::concat2;

verus! {

pub const DEFAULT_ENVIRONMENT_ID: &'static str = "local";

/// Where commands and file operations of a workspace run. `Host` is
/// implemented; `LinuxContainer` is registered but fails closed.
#[derive(Debug, Clone, Copy, PartialEq, Eq, Structural)]
pub enum EnvironmentKind {
    Host,
    LinuxContainer,
}

impl Default for EnvironmentKind {
    fn default() -> (r: Self)
        ensures
            r == EnvironmentKind::Host,
    {
        EnvironmentKind::Host
    }
}

impl EnvironmentKind {
    /// The display name of a kind.
    pub open spec fn name(self) -> Seq<char> {
        match self {
            EnvironmentKind::Host => "host"@,
            EnvironmentKind::LinuxContainer => "linux-container"@,
        }
    }

    /// The display name of a kind (`host`, `linux-container`).
    pub fn as_str(self) -> (r: &'static str)
        ensures
            r@ == self.name(),
    {
        match self {
            EnvironmentKind::Host => "host",
            EnvironmentKind::LinuxContainer => "linux-container",
        }
    }

    /// Backend currently implements exec for this environment.
    pub fn exec_supported(self) -> (r: bool)
        ensures
            r == (self == EnvironmentKind::Host),
    {
        matches!(self, EnvironmentKind::Host)
    }

    /// Backend currently implements workspace file reads.
    pub fn file_read_supported(self) -> (r: bool)
        ensures
            r == (self == EnvironmentKind::Host),
    {
        matches!(self, EnvironmentKind::Host)
    }

    /// Backend currently implements workspace file writes / apply_patch.
    pub fn file_write_supported(self) -> (r: bool)
        ensures
            r == (self == EnvironmentKind::Host),
    {
        matches!(self, EnvironmentKind::Host)
    }
}

/// A registered environment.
#[derive(Debug, Clone, PartialEq, Eq)]
pub struct Environment {
    pub id: String,
    pub kind: EnvironmentKind,
}

impl Environment {
    /// The default host environment, id `local`.
    pub fn local_host() -> (r: Self)
        ensures
            r.id@ == DEFAULT_ENVIRONMENT_ID@,
            r.kind == EnvironmentKind::Host,
    {
        Environment { id: String::from_str(DEFAULT_ENVIRONMENT_ID), kind: EnvironmentKind::Host }
    }
}

/// Internal dispatch refusal, mapped with [`EnvironmentDispatchError::into_error_body`].
#[derive(Debug, Clone, PartialEq, Eq, Structural)]
pub enum EnvironmentDispatchError {
    UnsupportedExec { kind: EnvironmentKind },
    UnsupportedFileRead { kind: EnvironmentKind },
    UnsupportedFileWrite { kind: EnvironmentKind },
}

impl EnvironmentDispatchError {
    /// The message a refusal carries.
    pub open spec fn message(self) -> Seq<char> {
        match self {
            EnvironmentDispatchError::UnsupportedExec { kind } => kind.name()
                + " environment is registered but not an exec path"@,
            EnvironmentDispatchError::UnsupportedFileRead { kind } => kind.name()
                + " environment is registered but not a file-read path"@,
            EnvironmentDispatchError::UnsupportedFileWrite { kind } => kind.name()
                + " environment is registered but not a file-write path"@,
        }
    }

    /// Every dispatch refusal is `UNAUTHORIZED` with no operation id.
    pub fn into_error_body(self) -> (r: ErrorBody)
        ensures
            r.code == ErrorCode::Unauthorized,
            r.message@ == self.message(),
            r.operation_id is None,
    {
        match self {
            EnvironmentDispatchError::UnsupportedExec { kind } => {
                let m = concat2(kind.as_str(), " environment is registered but not an exec path");
                ErrorBody::new(ErrorCode::Unauthorized, m.as_str())
            },
            EnvironmentDispatchError::UnsupportedFileRead { kind } => {
                let m = concat2(
                    kind.as_str(),
                    " environment is registered but not a file-read path",
                );
                ErrorBody::new(ErrorCode::Unauthorized, m.as_str())
            },
            EnvironmentDispatchError::UnsupportedFileWrite { kind } => {
                let m = concat2(
                    kind.as_str(),
                    " environment is registered but not a file-write path",
                );
                ErrorBody::new(ErrorCode::Unauthorized, m.as_str())
            },
        }
    }
}

/// Exec is dispatched only to environments that implement it.
pub fn require_exec(kind: EnvironmentKind) -> (r: Result<(), EnvironmentDispatchError>)
    ensures
        r == (if kind == EnvironmentKind::Host {
            Ok::<(), EnvironmentDispatchError>(())
        } else {
            Err(EnvironmentDispatchError::UnsupportedExec { kind })
        }),
{
    if kind.exec_supported() {
        Ok(())
    } else {
        Err(EnvironmentDispatchError::UnsupportedExec { kind })
    }
}

/// File reads are dispatched only to environments that implement them.
pub fn require_file_read(kind: EnvironmentKind) -> (r: Result<(), EnvironmentDispatchError>)
    ensures
        r == (if kind == EnvironmentKind::Host {
            Ok::<(), EnvironmentDispatchError>(())
        } else {
            Err(EnvironmentDispatchError::UnsupportedFileRead { kind })
        }),
{
    if kind.file_read_supported() {
        Ok(())
    } else {
        Err(EnvironmentDispatchError::UnsupportedFileRead { kind })
    }
}

/// File writes are dispatched only to environments that implement them.
pub fn require_file_write(kind: EnvironmentKind) -> (r: Result<(), EnvironmentDispatchError>)
    ensures
        r == (if kind == EnvironmentKind::Host {
            Ok::<(), EnvironmentDispatchError>(())
        } else {
            Err(EnvironmentDispatchError::UnsupportedFileWrite { kind })
        }),
{
    if kind.file_write_supported() {
        Ok(())
    } else {
        Err(EnvironmentDispatchError::UnsupportedFileWrite { kind })
    }
}

} // verus!
