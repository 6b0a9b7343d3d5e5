//! Who is calling: the identity that the gateway asserts in request headers
//! after it has checked the session. This service does not check tokens
//! itself; it only judges whether the asserted identity may use this
//! service instance.

use vstd::prelude::*;
use crate::http::{ApiError, ApiErrorView, HttpStatus, refuse, refusal};
use crate::text::same_text;

verus! {

/// The caller, as the gateway names it.
pub struct Identity {
    /// The identity provider's subject.
    pub user_id: String,
    pub email: String,
    /// The citizen's AMKA; only citizens have one, the other roles carry an
    /// empty text.
    pub amka: String,
}

pub struct IdentityView {
    pub user_id: Seq<char>,
    pub email: Seq<char>,
    pub amka: Seq<char>,
}

impl View for Identity {
    type V = IdentityView;

    open spec fn view(&self) -> IdentityView {
        IdentityView { user_id: self.user_id@, email: self.email@, amka: self.amka@ }
    }
}

/// The identity headers of a request (`X-User-Id`, `X-User-Email`,
/// `X-User-Role`, `X-User-Amka`), each absent when the request lacks it or
/// its value is not visible ASCII.
pub struct GatewayHeaders {
    pub user_id: Option<String>,
    pub email: Option<String>,
    pub role: Option<String>,
    pub amka: Option<String>,
}

pub open spec fn citizen_role() -> Seq<char> {
    "citizen"@
}

/// The verdict on a request's identity headers for a service instance that
/// serves `expected_role`. Only a citizen keeps the AMKA header; officers
/// and administrators carry an empty AMKA whatever the header says.
pub open spec fn authentication(
    user_id: Option<Seq<char>>,
    email: Option<Seq<char>>,
    role: Option<Seq<char>>,
    amka: Option<Seq<char>>,
    expected_role: Seq<char>,
) -> Result<IdentityView, ApiErrorView> {
    let amka_text = match amka {
        Some(a) => a,
        None => Seq::empty(),
    };
    if user_id is None {
        Err(refusal(HttpStatus::Unauthorized, "missing X-User-Id header from gateway"@))
    } else if email is None {
        Err(refusal(HttpStatus::Unauthorized, "missing X-User-Email header from gateway"@))
    } else if role is None {
        Err(refusal(HttpStatus::Unauthorized, "missing X-User-Role header from gateway"@))
    } else if role.unwrap() != expected_role {
        Err(refusal(HttpStatus::Forbidden, "role not permitted on this service instance"@))
    } else if role.unwrap() == citizen_role() && amka_text.len() == 0 {
        Err(refusal(HttpStatus::Unauthorized, "missing X-User-Amka header from gateway"@))
    } else if role.unwrap() == citizen_role() {
        Ok(IdentityView { user_id: user_id.unwrap(), email: email.unwrap(), amka: amka_text })
    } else {
        Ok(IdentityView { user_id: user_id.unwrap(), email: email.unwrap(), amka: Seq::empty() })
    }
}

pub open spec fn identity_outcome(r: Result<Identity, ApiError>) -> Result<IdentityView, ApiErrorView> {
    match r {
        Ok(i) => Ok(i@),
        Err(e) => Err(e@),
    }
}

impl Identity {
    /// Accepts the caller when the gateway named a user, an e-mail address
    /// and the role this instance serves, and, for a citizen, an AMKA; other
    /// roles get an empty AMKA.
    pub fn from_headers(headers: GatewayHeaders, expected_role: &str) -> (r: Result<Identity, ApiError>)
        ensures
            identity_outcome(r) == authentication(
                headers.user_id.deep_view(),
                headers.email.deep_view(),
                headers.role.deep_view(),
                headers.amka.deep_view(),
                expected_role@,
            ),
    {
        let user_id = match headers.user_id {
            Some(u) => u,
            None => {
                return Err(refuse(HttpStatus::Unauthorized, "missing X-User-Id header from gateway"));
            },
        };
        let email = match headers.email {
            Some(e) => e,
            None => {
                return Err(refuse(HttpStatus::Unauthorized, "missing X-User-Email header from gateway"));
            },
        };
        let role = match headers.role {
            Some(r) => r,
            None => {
                return Err(refuse(HttpStatus::Unauthorized, "missing X-User-Role header from gateway"));
            },
        };
        let amka = match headers.amka {
            Some(a) => a,
            None => String::new(),
        };
        if !same_text(role.as_str(), expected_role) {
            return Err(refuse(HttpStatus::Forbidden, "role not permitted on this service instance"));
        }
        if same_text(role.as_str(), "citizen") {
            if amka.as_str().unicode_len() == 0 {
                return Err(refuse(HttpStatus::Unauthorized, "missing X-User-Amka header from gateway"));
            }
            Ok(Identity { user_id, email, amka })
        } else {
            Ok(Identity { user_id, email, amka: String::new() })
        }
    }
}

} // verus!
