//! The authentication negotiator: stateless credential selection for
//! network operations.

use vstd::prelude::*;
use vstd::string::StringExecFns;
use crate::error::{clone_string, one_frame, ErrorClass, GitError};

verus! {

/// The ambient git-style credential configuration, threaded explicitly so
/// negotiation stays testable with injected fake configurations.
#[derive(Debug)]
pub struct CredentialConfig {
    /// Username configured for the target host in git configuration, if
    /// any.
    pub config_username: Option<String>,
}

/// The credential types the remote transport reports it will currently
/// accept.
#[derive(Clone, Copy, PartialEq, Eq, Structural, Debug)]
pub struct AllowedTypes {
    pub ssh_key: bool,
    pub user_pass_plaintext: bool,
    pub default_cred: bool,
}

/// What the negotiator decides to offer the transport.
#[derive(Debug)]
pub enum CredentialDecision {
    /// SSH public-key authentication via the local agent, with the
    /// resolved username.
    SshKeyFromAgent(String),
    /// Username/password through the platform credential-helper
    /// mechanism.
    CredentialHelper,
    /// The default/anonymous credential.
    Default,
    /// No accepted credential type is available.
    NoAuthAvailable,
}

/// Spec-level image of a credential decision.
pub enum CredentialChoice {
    SshKeyFromAgent(Seq<char>),
    CredentialHelper,
    Default,
    NoAuthAvailable,
}

/// Spec-level image of an exec decision.
pub open spec fn decision_view(d: &CredentialDecision) -> CredentialChoice {
    match d {
        CredentialDecision::SshKeyFromAgent(u) => CredentialChoice::SshKeyFromAgent(u@),
        CredentialDecision::CredentialHelper => CredentialChoice::CredentialHelper,
        CredentialDecision::Default => CredentialChoice::Default,
        CredentialDecision::NoAuthAvailable => CredentialChoice::NoAuthAvailable,
    }
}

/// The username offered for SSH-key authentication, by priority: the
/// explicit username from the URL or transport, then the one configured in
/// git for this host, and finally the literal fallback `git`.
pub open spec fn resolved_username(
    transport_username: Option<Seq<char>>,
    config_username: Option<Seq<char>>,
) -> Seq<char> {
    match transport_username {
        Some(u) => u,
        None => match config_username {
            Some(u) => u,
            None => "git"@,
        },
    }
}

/// The decision the negotiator owes for a given set of accepted
/// credential types: SSH keys from the agent are preferred, then the
/// credential helper, then the default credential, and otherwise
/// negotiation fails.
pub open spec fn select_model(
    allowed: AllowedTypes,
    transport_username: Option<Seq<char>>,
    config_username: Option<Seq<char>>,
) -> CredentialChoice {
    if allowed.ssh_key {
        CredentialChoice::SshKeyFromAgent(
            resolved_username(transport_username, config_username),
        )
    } else if allowed.user_pass_plaintext {
        CredentialChoice::CredentialHelper
    } else if allowed.default_cred {
        CredentialChoice::Default
    } else {
        CredentialChoice::NoAuthAvailable
    }
}

/// Spec-level image of an optional username.
pub open spec fn opt_name_view(u: &Option<String>) -> Option<Seq<char>> {
    match u {
        Some(s) => Some(s@),
        None => None,
    }
}

/// Picks the credential to offer for one challenge, given the credential
/// types the transport accepts, the explicit username from the URL or
/// transport, and the ambient configuration. Short-circuits on the first
/// accepted type in priority order.
pub fn select_credential(
    allowed: &AllowedTypes,
    transport_username: &Option<String>,
    cfg: &CredentialConfig,
) -> (r: CredentialDecision)
    ensures
        decision_view(&r) == select_model(
            *allowed,
            opt_name_view(transport_username),
            opt_name_view(&cfg.config_username),
        ),
{
    if allowed.ssh_key {
        let user = match transport_username {
            Some(u) => clone_string(u),
            None => match &cfg.config_username {
                Some(u) => clone_string(u),
                None => String::from_str("git"),
            },
        };
        CredentialDecision::SshKeyFromAgent(user)
    } else if allowed.user_pass_plaintext {
        CredentialDecision::CredentialHelper
    } else if allowed.default_cred {
        CredentialDecision::Default
    } else {
        CredentialDecision::NoAuthAvailable
    }
}

/// Message shown when every attempted credential was refused.
pub open spec fn auth_failed_msg() -> Seq<char> {
    "Failed to authenticate when downloading repository"@
}

/// Message of the terminal "no credential type left to try" condition.
pub open spec fn no_auth_msg() -> Seq<char> {
    "no authentication available"@
}

/// The error raised when the transport accepts none of the credential
/// types the negotiator can produce.
pub fn no_auth_error() -> (r: GitError)
    ensures
        r@ == one_frame(ErrorClass::Internal, no_auth_msg()),
{
    GitError::internal(String::from_str("no authentication available"))
}

/// Replaces a network operation's error after a failed final credential
/// attempt: the low-level transport error is wrapped under a single
/// user-facing "failed to authenticate" message, to give actionable
/// feedback. With no credential failure the error passes through
/// untouched.
pub fn normalize_auth_error(cred_error: bool, e: GitError) -> (r: GitError)
    ensures
        cred_error ==> r@ == one_frame(ErrorClass::UserFacing, auth_failed_msg()) + e@,
        !cred_error ==> r@ == e@,
{
    if cred_error {
        e.chain(
            ErrorClass::UserFacing,
            String::from_str("Failed to authenticate when downloading repository"),
        )
    } else {
        e
    }
}

/// Law: order of attempt. When the transport rejects SSH-key and
/// plaintext credentials but accepts the default credential, negotiation
/// returns the default credential — it offers neither the SSH agent nor
/// the credential helper.
pub proof fn lemma_default_credential_only(
    allowed: AllowedTypes,
    transport_username: Option<Seq<char>>,
    config_username: Option<Seq<char>>,
)
    requires
        !allowed.ssh_key,
        !allowed.user_pass_plaintext,
        allowed.default_cred,
    ensures
        select_model(allowed, transport_username, config_username) is Default,
{
}

/// Law: the SSH username priority. With an explicit transport username
/// the negotiator uses it; otherwise the configured one; otherwise the
/// literal `git`.
pub proof fn lemma_username_priority(
    transport_username: Option<Seq<char>>,
    config_username: Option<Seq<char>>,
)
    ensures
        transport_username matches Some(u) ==> resolved_username(
            transport_username,
            config_username,
        ) == u,
        transport_username is None ==> (config_username matches Some(u) ==> resolved_username(
            transport_username,
            config_username,
        ) == u),
        transport_username is None && config_username is None ==> resolved_username(
            transport_username,
            config_username,
        ) == "git"@,
{
}

} // verus!
