//! The access guard in front of the protected routes: a shared secret in a
//! request header.
use crate::errors::{ApiError, AuthKind};
use vstd::prelude::*;

verus! {

/// The name of the header that carries the secret.
pub const API_KEY_HEADER: &'static str = "x-api-key";

/// What the guard decides for a request whose secret header is `header`
/// (`None` when absent) against the configured secret `key`.
pub open spec fn auth_outcome(key: Seq<char>, header: Option<Seq<char>>) -> Result<(), AuthKind> {
    match header {
        None => Err(AuthKind::MissingKey),
        Some(h) => if h == key {
            Ok(())
        } else {
            Err(AuthKind::InvalidKey)
        },
    }
}

/// The guard's configuration: the shared secret.
#[derive(Clone, Debug)]
pub struct ApiKeyAuth {
    pub api_key: String,
}

/// The guard wrapped around an inner handler: requests it admits go on to
/// `service` unchanged.
#[derive(Clone, Debug)]
pub struct ApiKeyAuthMiddleware<S> {
    pub service: S,
    pub api_key: String,
}

impl ApiKeyAuth {
    /// A guard that admits requests carrying `api_key`.
    pub fn new(api_key: String) -> (r: ApiKeyAuth)
        ensures
            r.api_key == api_key,
    {
        ApiKeyAuth { api_key }
    }

    /// Checks a request's secret header: absent is `MissingKey`, present but
    /// different from the secret is `InvalidKey`, equal passes.
    pub fn check(&self, header: Option<&str>) -> (r: Result<(), ApiError>)
        ensures
            r is Ok <==> auth_outcome(
                self.api_key@,
                match header {
                    Some(h) => Some(h@),
                    None => None,
                },
            ) is Ok,
            r matches Err(ApiError::Auth(k)) ==> Err::<(), AuthKind>(k) == auth_outcome(
                self.api_key@,
                match header {
                    Some(h) => Some(h@),
                    None => None,
                },
            ),
            r matches Err(e) ==> e matches ApiError::Auth(_),
    {
        match header {
            None => Err(ApiError::Auth(AuthKind::MissingKey)),
            Some(h) => {
                let given = String::from_str(h);
                if given == self.api_key {
                    Ok(())
                } else {
                    Err(ApiError::Auth(AuthKind::InvalidKey))
                }
            },
        }
    }

    /// Wraps `service` in this guard.
    pub fn new_transform<S>(&self, service: S) -> (r: ApiKeyAuthMiddleware<S>)
        ensures
            r.service == service,
            r.api_key == self.api_key,
    {
        ApiKeyAuthMiddleware { service, api_key: self.api_key.clone() }
    }
}

impl<S> ApiKeyAuthMiddleware<S> {
    /// Decides a request by its secret header, as `ApiKeyAuth::check`;
    /// `Ok` hands back the inner handler, which then serves the request.
    pub fn call(&self, header: Option<&str>) -> (r: Result<&S, ApiError>)
        ensures
            r is Ok <==> auth_outcome(
                self.api_key@,
                match header {
                    Some(h) => Some(h@),
                    None => None,
                },
            ) is Ok,
            r matches Ok(s) ==> *s == self.service,
            r matches Err(ApiError::Auth(k)) ==> Err::<(), AuthKind>(k) == auth_outcome(
                self.api_key@,
                match header {
                    Some(h) => Some(h@),
                    None => None,
                },
            ),
            r matches Err(e) ==> e matches ApiError::Auth(_),
    {
        let guard = ApiKeyAuth { api_key: self.api_key.clone() };
        match guard.check(header) {
            Ok(()) => Ok(&self.service),
            Err(e) => Err(e),
        }
    }
}

/// The guard treats identical requests alike but for the secret header: with
/// the configured secret a request passes, without the header it is refused
/// as `MissingKey`, and with any other value as `InvalidKey`.
pub proof fn lemma_access_control(key: Seq<char>, wrong: Seq<char>)
    requires
        wrong != key,
    ensures
        auth_outcome(key, Some(key)) == Ok::<(), AuthKind>(()),
        auth_outcome(key, None) == Err::<(), AuthKind>(AuthKind::MissingKey),
        auth_outcome(key, Some(wrong)) == Err::<(), AuthKind>(AuthKind::InvalidKey),
{
}

} // verus!
