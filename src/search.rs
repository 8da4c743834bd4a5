use vstd::prelude::*;
use crate::credential::{Credential, CredentialView};
use crate::filter::{field_passes, filter_admits, opt_filter_view, Filter, FilterView};
use crate::text::has_prefix;

verus! {

/// The lower-case form of a text, as Unicode defines it.
pub uninterp spec fn lower_of(s: Seq<char>) -> Seq<char>;

/// Relies on `str::to_lowercase`: the result is the Unicode lower-case
/// mapping of the characters of `s`, and depends on them alone.
#[verifier::external_body]
pub(crate) fn lowercase(s: &str) -> (r: String)
    ensures
        r@ == lower_of(s@),
{
    s.to_lowercase()
}

/// Whether a credential is found by a search, given the lower-case forms of
/// the query and of the credential's user.
pub open spec fn selected(lowered_query: Seq<char>, lowered_user: Seq<char>, c: CredentialView, f: Option<FilterView>) -> bool {
    lowered_query.is_prefix_of(lowered_user) && filter_admits(f, c)
}

/// Whether a credential is found by a search for `query` under filter `f`:
/// its user starts with the query when both are taken in lower case, and
/// it passes the filter.
pub open spec fn found_by(query: Seq<char>, c: CredentialView, f: Option<FilterView>) -> bool {
    selected(lower_of(query), lower_of(c.user), c, f)
}

/// The credentials of `s` that a search for `query` under `f` finds, in
/// the order of `s`.
pub open spec fn search_result(s: Seq<CredentialView>, query: Seq<char>, f: Option<FilterView>) -> Seq<CredentialView>
    decreases s.len(),
{
    if s.len() == 0 {
        Seq::empty()
    } else {
        let rest = search_result(s.drop_last(), query, f);
        if found_by(query, s.last(), f) {
            rest.push(s.last())
        } else {
            rest
        }
    }
}

/// Decides whether `cred` is found by a search, given the lower-case forms
/// of the query and of the credential's user.
pub fn credential_passes(lowered_query: &str, lowered_user: &str, cred: &Credential, filter: &Option<Filter>) -> (r: bool)
    ensures
        r == selected(lowered_query@, lowered_user@, cred@, opt_filter_view(*filter)),
{
    if !has_prefix(lowered_user, lowered_query) {
        return false;
    }
    match filter {
        None => true,
        Some(Filter::Tag(v)) => field_passes(&cred.tag, v.as_str()),
        Some(Filter::Site(v)) => field_passes(&cred.site, v.as_str()),
    }
}

} // verus!
