use vstd::prelude::*;
use crate::text::same_chars;

verus! {

/// One login record.
#[derive(Debug, Clone)]
pub struct Credential {
    /// Login, e-mail or other identifier.
    pub user: String,
    pub password: String,
    /// A free-form label.
    pub tag: Option<String>,
    /// The site this login belongs to.
    pub site: Option<String>,
}

/// The mathematical value of a [`Credential`].
pub struct CredentialView {
    pub user: Seq<char>,
    pub password: Seq<char>,
    pub tag: Option<Seq<char>>,
    pub site: Option<Seq<char>>,
}

/// The characters of an optional string.
pub open spec fn opt_view(o: Option<String>) -> Option<Seq<char>> {
    match o {
        Some(s) => Some(s@),
        None => None,
    }
}

impl View for Credential {
    type V = CredentialView;

    open spec fn view(&self) -> CredentialView {
        CredentialView {
            user: self.user@,
            password: self.password@,
            tag: opt_view(self.tag),
            site: opt_view(self.site),
        }
    }
}

/// The values of a sequence of credentials.
pub open spec fn creds_view(s: Seq<Credential>) -> Seq<CredentialView> {
    s.map_values(|c: Credential| c@)
}

/// Whether `c` is identified by the pair `(user, password)`.
pub open spec fn identified_by(c: CredentialView, user: Seq<char>, password: Seq<char>) -> bool {
    c.user == user && c.password == password
}

/// Whether some credential of `s` is identified by `(user, password)`.
pub open spec fn holds_identity(s: Seq<CredentialView>, user: Seq<char>, password: Seq<char>) -> bool {
    exists|i: int| 0 <= i < s.len() && identified_by(#[trigger] s[i], user, password)
}

/// A copy of an optional string.
pub fn copy_opt(o: &Option<String>) -> (r: Option<String>)
    ensures
        opt_view(r) == opt_view(*o),
{
    match o {
        Some(s) => Some(s.clone()),
        None => None,
    }
}

impl Credential {
    /// A credential from its four fields.
    pub fn new(user: String, password: String, tag: Option<String>, site: Option<String>) -> (r: Credential)
        ensures
            r@ == (CredentialView {
                user: user@,
                password: password@,
                tag: opt_view(tag),
                site: opt_view(site),
            }),
    {
        Credential { user, password, tag, site }
    }

    /// A copy of this credential.
    pub fn duplicate(&self) -> (r: Credential)
        ensures
            r@ == self@,
    {
        Credential {
            user: self.user.clone(),
            password: self.password.clone(),
            tag: copy_opt(&self.tag),
            site: copy_opt(&self.site),
        }
    }

    /// Whether this credential has exactly this user and password.
    pub fn is_identified_by(&self, user: &str, password: &str) -> (r: bool)
        ensures
            r == identified_by(self@, user@, password@),
    {
        same_chars(self.user.as_str(), user) && same_chars(self.password.as_str(), password)
    }
}

} // verus!
