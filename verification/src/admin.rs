//! Access to the credential administration, guarded by a shared secret in a
//! header of its own.

use vstd::prelude::*;
use vstd::string::*;
use crate::text::text_eq;

verus! {

/// The header that carries the administrator's secret.
pub const ADMIN_HEADER: &'static str = "x-admin-token";

/// The name under which the deployment keeps the administrator's secret.
pub const ADMIN_SECRET: &'static str = "ADMIN_TOKEN";

/// Why a request may not administer credentials.
#[derive(Debug, Clone, Copy, PartialEq, Eq, Structural)]
pub enum AdminError {
    /// The request carries no [`ADMIN_HEADER`].
    MissingHeader,
    /// The header does not hold the secret.
    Unauthorized,
}

/// What [`admin_auth`] decides.
pub open spec fn admin_decision(header: Option<Seq<char>>, secret: Seq<char>) -> Result<
    (),
    AdminError,
> {
    match header {
        None => Err(AdminError::MissingHeader),
        Some(value) => if value == secret {
            Ok(())
        } else {
            Err(AdminError::Unauthorized)
        },
    }
}

/// The characters of an optional text slice.
pub open spec fn optional_slice(text: Option<&str>) -> Option<Seq<char>> {
    match text {
        Some(s) => Some(s@),
        None => None,
    }
}

/// Admits a request whose admin header holds exactly the secret.
pub fn admin_auth(header: Option<&str>, admin_token: &str) -> (decision: Result<(), AdminError>)
    ensures
        decision == admin_decision(optional_slice(header), admin_token@),
{
    match header {
        None => Err(AdminError::MissingHeader),
        Some(value) => {
            if text_eq(value, admin_token) {
                Ok(())
            } else {
                Err(AdminError::Unauthorized)
            }
        },
    }
}

impl AdminError {
    /// The words that go with this refusal.
    pub open spec fn message_text(self) -> Seq<char> {
        match self {
            AdminError::MissingHeader => "X-Admin-Token header is missing"@,
            AdminError::Unauthorized => "Unauthorized"@,
        }
    }

    /// The words that go with this refusal.
    pub fn message(&self) -> (text: String)
        ensures
            text@ == self.message_text(),
    {
        match self {
            AdminError::MissingHeader => String::from_str("X-Admin-Token header is missing"),
            AdminError::Unauthorized => String::from_str("Unauthorized"),
        }
    }
}

} // verus!
