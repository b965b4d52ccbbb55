use vstd::prelude::*;

verus! {

/// The data bundle a channel needs to conduct an authorization-code
/// exchange. A plain value object with no behavior: the coordinator never
/// inspects the fields, it only forwards copies to its channels. Each field
/// is individually optional — absent before the corresponding step of the
/// flow has produced it.
#[derive(Debug, PartialEq, Eq)]
pub struct AuthContext {
    /// The provider's authorization endpoint with query parameters attached.
    pub auth_url: Option<String>,
    /// Opaque anti-forgery token used by the protocol layer to validate the
    /// callback.
    pub csrf: Option<String>,
    /// Where the authorization server sends the user after consent.
    pub redirect_url: Option<String>,
}

impl AuthContext {
    /// An independent copy, equal in value to `self`. Broadcasting one
    /// context to two channels requires independent copies, since each
    /// channel owns its copy for the lifetime of the exchange.
    pub fn duplicate(&self) -> (r: AuthContext)
        ensures
            r == *self,
    {
        AuthContext {
            auth_url: match &self.auth_url {
                Some(u) => Some(u.clone()),
                None => None,
            },
            csrf: match &self.csrf {
                Some(c) => Some(c.clone()),
                None => None,
            },
            redirect_url: match &self.redirect_url {
                Some(u) => Some(u.clone()),
                None => None,
            },
        }
    }
}

} // verus!
