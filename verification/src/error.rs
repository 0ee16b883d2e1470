//! The service's error taxonomy, by origin: configuration, validation,
//! store, host, IPC, permission, and internal faults.

use vstd::prelude::*;

use crate::ids::EntryId;

verus! {

/// One error of the service, carrying its origin and detail.
#[derive(Debug)]
pub enum ShepherdError {
    EntryNotFound(EntryId),
    NoActiveSession,
    SessionAlreadyActive,
    ConfigError(String),
    ValidationError(String),
    StoreError(String),
    HostError(String),
    IpcError(String),
    PermissionDenied(String),
    RateLimited,
    Internal(String),
}

impl ShepherdError {
    pub fn config(msg: String) -> (r: ShepherdError)
        ensures
            r matches ShepherdError::ConfigError(m) && m@ == msg@,
    {
        ShepherdError::ConfigError(msg)
    }

    pub fn validation(msg: String) -> (r: ShepherdError)
        ensures
            r matches ShepherdError::ValidationError(m) && m@ == msg@,
    {
        ShepherdError::ValidationError(msg)
    }

    pub fn store(msg: String) -> (r: ShepherdError)
        ensures
            r matches ShepherdError::StoreError(m) && m@ == msg@,
    {
        ShepherdError::StoreError(msg)
    }

    pub fn host(msg: String) -> (r: ShepherdError)
        ensures
            r matches ShepherdError::HostError(m) && m@ == msg@,
    {
        ShepherdError::HostError(msg)
    }

    pub fn ipc(msg: String) -> (r: ShepherdError)
        ensures
            r matches ShepherdError::IpcError(m) && m@ == msg@,
    {
        ShepherdError::IpcError(msg)
    }

    pub fn permission(msg: String) -> (r: ShepherdError)
        ensures
            r matches ShepherdError::PermissionDenied(m) && m@ == msg@,
    {
        ShepherdError::PermissionDenied(msg)
    }

    pub fn internal(msg: String) -> (r: ShepherdError)
        ensures
            r matches ShepherdError::Internal(m) && m@ == msg@,
    {
        ShepherdError::Internal(msg)
    }

    /// The stable name of the error's kind.
    pub open spec fn spec_kind_name(self) -> Seq<char> {
        match self {
            ShepherdError::EntryNotFound(_) => "entry_not_found"@,
            ShepherdError::NoActiveSession => "no_active_session"@,
            ShepherdError::SessionAlreadyActive => "session_active"@,
            ShepherdError::ConfigError(_) => "config_error"@,
            ShepherdError::ValidationError(_) => "validation_error"@,
            ShepherdError::StoreError(_) => "store_error"@,
            ShepherdError::HostError(_) => "host_error"@,
            ShepherdError::IpcError(_) => "ipc_error"@,
            ShepherdError::PermissionDenied(_) => "permission_denied"@,
            ShepherdError::RateLimited => "rate_limited"@,
            ShepherdError::Internal(_) => "internal_error"@,
        }
    }

    pub fn kind_name(&self) -> (r: &'static str)
        ensures
            r@ == self.spec_kind_name(),
    {
        match self {
            ShepherdError::EntryNotFound(_) => "entry_not_found",
            ShepherdError::NoActiveSession => "no_active_session",
            ShepherdError::SessionAlreadyActive => "session_active",
            ShepherdError::ConfigError(_) => "config_error",
            ShepherdError::ValidationError(_) => "validation_error",
            ShepherdError::StoreError(_) => "store_error",
            ShepherdError::HostError(_) => "host_error",
            ShepherdError::IpcError(_) => "ipc_error",
            ShepherdError::PermissionDenied(_) => "permission_denied",
            ShepherdError::RateLimited => "rate_limited",
            ShepherdError::Internal(_) => "internal_error",
        }
    }
}

} // verus!
