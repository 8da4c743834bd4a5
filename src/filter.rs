use vstd::prelude::*;
use vstd::string::*;
use crate::credential::CredentialView;
use crate::error::FaError;
use crate::text::has_prefix;

verus! {

/// A restriction of a search to one optional field of the credentials.
#[derive(Debug, Clone)]
pub enum Filter {
    /// Keep the credentials whose tag starts with the value.
    Tag(String),
    /// Keep the credentials whose site starts with the value.
    Site(String),
}

/// The mathematical value of a [`Filter`].
pub enum FilterView {
    Tag(Seq<char>),
    Site(Seq<char>),
}

impl View for Filter {
    type V = FilterView;

    open spec fn view(&self) -> FilterView {
        match self {
            Filter::Tag(v) => FilterView::Tag(v@),
            Filter::Site(v) => FilterView::Site(v@),
        }
    }
}

/// The view of an optional filter.
pub open spec fn opt_filter_view(f: Option<Filter>) -> Option<FilterView> {
    match f {
        Some(x) => Some(x@),
        None => None,
    }
}

pub open spec fn tag_marker() -> Seq<char> {
    seq!['t', 'a', 'g', '/']
}

pub open spec fn site_marker() -> Seq<char> {
    seq!['s', 'i', 't', 'e', '/']
}

/// The filter that the text `s` writes, if it has the form `<field>/<value>`
/// with `<field>` one of `tag` and `site`.
pub open spec fn filter_of(s: Seq<char>) -> Option<FilterView> {
    if tag_marker().is_prefix_of(s) {
        Some(FilterView::Tag(s.skip(4)))
    } else if site_marker().is_prefix_of(s) {
        Some(FilterView::Site(s.skip(5)))
    } else {
        None
    }
}

/// Whether an optional field starts with `value`; an absent field only
/// matches the empty value.
pub open spec fn field_admits(field: Option<Seq<char>>, value: Seq<char>) -> bool {
    match field {
        Some(f) => value.is_prefix_of(f),
        None => value.len() == 0,
    }
}

/// Whether a credential passes an optional filter.
pub open spec fn filter_admits(f: Option<FilterView>, c: CredentialView) -> bool {
    match f {
        None => true,
        Some(FilterView::Tag(v)) => field_admits(c.tag, v),
        Some(FilterView::Site(v)) => field_admits(c.site, v),
    }
}

/// Reads the filter given to a search, if any.
///
/// A filter must read `tag/<value>` or `site/<value>`; anything else is
/// refused with [`FaError::UnexpectedFilterSyntax`].
pub fn parse_filter(passed: &Option<String>) -> (r: Result<Option<Filter>, FaError>)
    ensures
        passed.is_none() ==> r matches Ok(None),
        passed.is_some() ==> match filter_of(passed.unwrap()@) {
            Some(fv) => r matches Ok(Some(f)) && f@ == fv,
            None => r matches Err(FaError::UnexpectedFilterSyntax),
        },
{
    match passed {
        None => Ok(None),
        Some(s) => {
            let text = s.as_str();
            let tag = "tag/";
            let site = "site/";
            proof {
                reveal_strlit("tag/");
                reveal_strlit("site/");
                assert(tag@ =~= tag_marker());
                assert(site@ =~= site_marker());
            }
            let n = text.unicode_len();
            if has_prefix(text, tag) {
                let value = text.substring_char(4, n);
                Ok(Some(Filter::Tag(value.to_owned())))
            } else if has_prefix(text, site) {
                let value = text.substring_char(5, n);
                Ok(Some(Filter::Site(value.to_owned())))
            } else {
                Err(FaError::UnexpectedFilterSyntax)
            }
        },
    }
}

/// Whether the optional field `field` passes a filter value.
pub fn field_passes(field: &Option<String>, value: &str) -> (r: bool)
    ensures
        r == field_admits(crate::credential::opt_view(*field), value@),
{
    match field {
        Some(f) => has_prefix(f.as_str(), value),
        None => value.unicode_len() == 0,
    }
}

} // verus!
