//! The commands of the group.

use crate::text::Text;
use vstd::prelude::*;

verus! {

/// A command of the group, with what the user gave for it.
#[derive(Debug)]
pub enum AuthCommand<S = String> {
    /// Authenticate with Microsoft Teams.
    Login {
        /// Use the client credentials flow (non-interactive).
        client_credentials: bool,
        /// Use the device code flow.
        device_code: bool,
        /// Log in with a pre-obtained access token; `-` reads it from standard input.
        token: Option<S>,
        /// Application (client) id.
        client_id: Option<S>,
        /// Client secret.
        client_secret: Option<S>,
        /// Tenant id.
        tenant_id: Option<S>,
        /// Scopes, for delegated flows.
        scopes: Option<S>,
    },
    /// Silently redeem the stored refresh token for the resolved delegated scopes.
    Refresh {
        /// Scopes to ask for instead of those of the stored token.
        scopes: Option<S>,
    },
    /// Check the current state.
    Status,
    /// Print the admin consent URL for the active app.
    ConsentUrl {
        /// Application (client) id.
        client_id: Option<S>,
        /// Tenant id or domain.
        tenant_id: Option<S>,
        /// Scopes that the URL asks for.
        scopes: Option<S>,
    },
    /// Diagnose the configuration and the current token.
    Doctor {
        /// Application (client) id.
        client_id: Option<S>,
        /// Tenant id or domain.
        tenant_id: Option<S>,
    },
    /// List all authenticated profiles.
    List,
    /// Switch the active profile.
    Switch {
        /// The profile to switch to.
        name: S,
    },
    /// Clear stored credentials.
    Logout {
        /// The profile to log out, in place of the active one.
        profile: Option<S>,
        /// Log out all profiles.
        all: bool,
    },
    /// Export the current access token.
    Token {
        /// `json` for a record; anything else for the bare token.
        format: S,
    },
}

impl View for AuthCommand {
    type V = AuthCommand<Text>;

    open spec fn view(&self) -> AuthCommand<Text> {
        match self {
            AuthCommand::Login {
                client_credentials,
                device_code,
                token,
                client_id,
                client_secret,
                tenant_id,
                scopes,
            } => AuthCommand::Login {
                client_credentials: *client_credentials,
                device_code: *device_code,
                token: token.deep_view(),
                client_id: client_id.deep_view(),
                client_secret: client_secret.deep_view(),
                tenant_id: tenant_id.deep_view(),
                scopes: scopes.deep_view(),
            },
            AuthCommand::Refresh { scopes } => AuthCommand::Refresh { scopes: scopes.deep_view() },
            AuthCommand::Status => AuthCommand::Status,
            AuthCommand::ConsentUrl { client_id, tenant_id, scopes } => AuthCommand::ConsentUrl {
                client_id: client_id.deep_view(),
                tenant_id: tenant_id.deep_view(),
                scopes: scopes.deep_view(),
            },
            AuthCommand::Doctor { client_id, tenant_id } => AuthCommand::Doctor {
                client_id: client_id.deep_view(),
                tenant_id: tenant_id.deep_view(),
            },
            AuthCommand::List => AuthCommand::List,
            AuthCommand::Switch { name } => AuthCommand::Switch { name: name@ },
            AuthCommand::Logout { profile, all } => AuthCommand::Logout {
                profile: profile.deep_view(),
                all: *all,
            },
            AuthCommand::Token { format } => AuthCommand::Token { format: format@ },
        }
    }
}

} // verus!
