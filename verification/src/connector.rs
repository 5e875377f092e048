use vstd::prelude::*;
use crate::domain_errors::ConnectorError;
use crate::collaborator_errors::ConnectorPortError;
use crate::text::{opt_sstr_view, opt_str_view, opt_to_string, opt_ref_view, pairs_view, strings_view};

verus! {
#[derive(Debug, Clone, Copy, PartialEq, Eq, Structural)]
pub struct ListConnectorDefinitionsUsecase;

impl ListConnectorDefinitionsUsecase {
    pub fn new() -> (result: Self)
        ensures
            result == (ListConnectorDefinitionsUsecase),
    {
        ListConnectorDefinitionsUsecase
    }
}

impl Default for ListConnectorDefinitionsUsecase {
    fn default() -> (result: Self)
        ensures
            result == (ListConnectorDefinitionsUsecase),
    {
        Self::new()
    }
}

#[derive(Debug, Clone, Copy, PartialEq, Eq, Structural)]
pub struct InstallConnectorUsecase;

impl InstallConnectorUsecase {
    pub fn new() -> (result: Self)
        ensures
            result == (InstallConnectorUsecase),
    {
        InstallConnectorUsecase
    }
}

impl Default for InstallConnectorUsecase {
    fn default() -> (result: Self)
        ensures
            result == (InstallConnectorUsecase),
    {
        Self::new()
    }
}

#[derive(Debug, Clone, Copy, PartialEq, Eq, Structural)]
pub struct DisableConnectorUsecase;

impl DisableConnectorUsecase {
    pub fn new() -> (result: Self)
        ensures
            result == (DisableConnectorUsecase),
    {
        DisableConnectorUsecase
    }
}

impl Default for DisableConnectorUsecase {
    fn default() -> (result: Self)
        ensures
            result == (DisableConnectorUsecase),
    {
        Self::new()
    }
}

#[derive(Debug, Clone, Copy, PartialEq, Eq, Structural)]
pub struct GetConnectorStatusUsecase;

impl GetConnectorStatusUsecase {
    pub fn new() -> (result: Self)
        ensures
            result == (GetConnectorStatusUsecase),
    {
        GetConnectorStatusUsecase
    }
}

impl Default for GetConnectorStatusUsecase {
    fn default() -> (result: Self)
        ensures
            result == (GetConnectorStatusUsecase),
    {
        Self::new()
    }
}

#[derive(Debug, Clone, Copy, PartialEq, Eq, Structural)]
pub struct StartConnectorSyncUsecase;

impl StartConnectorSyncUsecase {
    pub fn new() -> (result: Self)
        ensures
            result == (StartConnectorSyncUsecase),
    {
        StartConnectorSyncUsecase
    }
}

impl Default for StartConnectorSyncUsecase {
    fn default() -> (result: Self)
        ensures
            result == (StartConnectorSyncUsecase),
    {
        Self::new()
    }
}

#[derive(Debug, Clone, Copy, PartialEq, Eq, Structural)]
pub struct RunConnectorSyncUsecase;

impl RunConnectorSyncUsecase {
    pub fn new() -> (result: Self)
        ensures
            result == (RunConnectorSyncUsecase),
    {
        RunConnectorSyncUsecase
    }
}

impl Default for RunConnectorSyncUsecase {
    fn default() -> (result: Self)
        ensures
            result == (RunConnectorSyncUsecase),
    {
        Self::new()
    }
}

#[derive(Debug, Clone, Copy, PartialEq, Eq, Structural)]
pub enum ConnectorUsecaseError {
    InvalidInput,
    RegistryUnavailable,
    RepositoryUnavailable,
    DefinitionNotFound,
    InstallationNotFound,
    ScopeDenied,
    InvalidTransition,
    GatewayUnavailable,
    ActivityStoreUnavailable,
}

impl ConnectorUsecaseError {
    pub fn code(self) -> (result: &'static str)
        ensures
            result@ == match self {
                Self::InvalidInput => "connector_usecase.invalid_input"@,
                Self::RegistryUnavailable => "connector_usecase.registry_unavailable"@,
                Self::RepositoryUnavailable => "connector_usecase.repository_unavailable"@,
                Self::DefinitionNotFound => "connector_usecase.definition_not_found"@,
                Self::InstallationNotFound => "connector_usecase.installation_not_found"@,
                Self::ScopeDenied => "connector_usecase.scope_denied"@,
                Self::InvalidTransition => "connector_usecase.invalid_transition"@,
                Self::GatewayUnavailable => "connector_usecase.gateway_unavailable"@,
                Self::ActivityStoreUnavailable => "connector_usecase.activity_store_unavailable"@,
            },
    {
        match self {
            Self::InvalidInput => "connector_usecase.invalid_input",
            Self::RegistryUnavailable => "connector_usecase.registry_unavailable",
            Self::RepositoryUnavailable => "connector_usecase.repository_unavailable",
            Self::DefinitionNotFound => "connector_usecase.definition_not_found",
            Self::InstallationNotFound => "connector_usecase.installation_not_found",
            Self::ScopeDenied => "connector_usecase.scope_denied",
            Self::InvalidTransition => "connector_usecase.invalid_transition",
            Self::GatewayUnavailable => "connector_usecase.gateway_unavailable",
            Self::ActivityStoreUnavailable => "connector_usecase.activity_store_unavailable",
        }
    }
}

impl ConnectorUsecaseError {
    /// How this usecase reports each connector failure.
    pub fn from_registry_error(error: ConnectorPortError) -> (result: Self)
        ensures
            result == match error {
                ConnectorPortError::StoreUnavailable => Self::RegistryUnavailable,
            },
    {
        match error {
            ConnectorPortError::StoreUnavailable => Self::RegistryUnavailable,
        }
    }
}

impl ConnectorUsecaseError {
    /// How this usecase reports each connector failure.
    pub fn from_repository_error(error: ConnectorPortError) -> (result: Self)
        ensures
            result == match error {
                ConnectorPortError::StoreUnavailable => Self::RepositoryUnavailable,
            },
    {
        match error {
            ConnectorPortError::StoreUnavailable => Self::RepositoryUnavailable,
        }
    }
}

impl ConnectorUsecaseError {
    /// How this usecase reports each connector failure.
    pub fn from_domain_error(error: ConnectorError) -> (result: Self)
        ensures
            result == match error {
                ConnectorError::ScopeDenied => Self::ScopeDenied,
                ConnectorError::InvalidTransition => Self::InvalidTransition,
                ConnectorError::InvalidId | ConnectorError::InvalidName | ConnectorError::EmptyScope | ConnectorError::InvalidCredentialReference | ConnectorError::InvalidExternalObjectReference | ConnectorError::InvalidActivity => Self::InvalidInput,
            },
    {
        match error {
            ConnectorError::ScopeDenied => Self::ScopeDenied,
            ConnectorError::InvalidTransition => Self::InvalidTransition,
            ConnectorError::InvalidId | ConnectorError::InvalidName | ConnectorError::EmptyScope | ConnectorError::InvalidCredentialReference | ConnectorError::InvalidExternalObjectReference | ConnectorError::InvalidActivity => Self::InvalidInput,
        }
    }
}

impl ConnectorUsecaseError {
    /// How this usecase reports each connector failure.
    pub fn from_activity_store_error(error: ConnectorPortError) -> (result: Self)
        ensures
            result == match error {
                ConnectorPortError::StoreUnavailable => Self::ActivityStoreUnavailable,
            },
    {
        match error {
            ConnectorPortError::StoreUnavailable => Self::ActivityStoreUnavailable,
        }
    }
}

} // verus!
