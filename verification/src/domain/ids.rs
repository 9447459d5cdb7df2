//! Opaque identifiers. None of them is a credential.

use vstd::prelude::*;

verus! {

/// Selector only. Knowing this value is not authorization.
#[derive(Debug, Clone, PartialEq, Eq, Hash)]
pub struct WorkspaceId(pub String);

/// Server-minted id for a mutating operation. Distinct from the HTTP/JSON-RPC
/// request id and from [`ProcessId`].
#[derive(Debug, Clone, PartialEq, Eq, Hash)]
pub struct OperationId(pub String);

/// Client-supplied idempotency key. Not a capability token.
#[derive(Debug, Clone, PartialEq, Eq, Hash)]
pub struct OperationKey(pub String);

/// Server-minted handle for a managed process. Clients cannot invent these.
#[derive(Debug, Clone, PartialEq, Eq, Hash)]
pub struct ProcessId(pub String);

/// Selector for one logical job the user handed the outer agent.
/// Knowing this value is not authorization.
#[derive(Debug, Clone, PartialEq, Eq, Hash)]
pub struct WorkId(pub String);

/// Server-minted id for one deferred user-intent item.
#[derive(Debug, Clone, PartialEq, Eq, Hash)]
pub struct IntentId(pub String);

/// Server-minted id for a confirmation hold. Distinct from [`OperationId`].
#[derive(Debug, Clone, PartialEq, Eq, Hash)]
pub struct ApprovalId(pub String);

} // verus!
