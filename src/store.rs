use vstd::prelude::*;
use crate::credential::{creds_view, holds_identity, identified_by, Credential, CredentialView};
use crate::error::FaError;
use crate::filter::{opt_filter_view, Filter};
use crate::search::{credential_passes, lowercase, search_result};
use crate::text::joined;

verus! {

/// A named, ordered collection of credentials, kept in one file.
#[derive(Debug, Clone)]
pub struct Store {
    pub name: String,
    /// The file that holds the store, encrypted.
    pub path: String,
    /// The credentials, in the order they were added.
    pub data: Vec<Credential>,
}

/// The mathematical value of a [`Store`].
pub struct StoreView {
    pub name: Seq<char>,
    pub path: Seq<char>,
    pub data: Seq<CredentialView>,
}

impl View for Store {
    type V = StoreView;

    open spec fn view(&self) -> StoreView {
        StoreView { name: self.name@, path: self.path@, data: creds_view(self.data@) }
    }
}

/// What adding `c` to the credentials `s` gives: `None` where a credential
/// with the same user and password is present already.
pub open spec fn add_outcome(s: Seq<CredentialView>, c: CredentialView) -> Option<Seq<CredentialView>> {
    if holds_identity(s, c.user, c.password) {
        None
    } else {
        Some(s.push(c))
    }
}

/// Whether `i` is the first position of `s` identified by `(user, password)`.
pub open spec fn first_match(s: Seq<CredentialView>, user: Seq<char>, password: Seq<char>, i: int) -> bool {
    &&& 0 <= i < s.len()
    &&& identified_by(s[i], user, password)
    &&& forall|j: int| 0 <= j < i ==> !identified_by(#[trigger] s[j], user, password)
}

/// The path of the file of store `name` under the directory `base`.
pub open spec fn store_file_path(name: Seq<char>, base: Seq<char>) -> Seq<char> {
    base + "/"@ + name + ".fa"@
}

proof fn lemma_creds_view_push(s: Seq<Credential>, c: Credential)
    ensures
        creds_view(s.push(c)) == creds_view(s).push(c@),
{
    assert(creds_view(s.push(c)) =~= creds_view(s).push(c@));
}

impl Store {
    /// A new, empty store `name` kept at `store_path`.
    ///
    /// Creation is refused with [`FaError::AlreadyPresent`] where a file
    /// already stands at `store_path`, as `already_present` tells.
    pub fn new(name: &String, store_path: String, already_present: bool) -> (r: Result<Store, FaError>)
        ensures
            already_present ==> (r matches Err(FaError::AlreadyPresent { path }) && path@ == store_path@),
            !already_present ==> (r matches Ok(s) && s@ == (StoreView { name: name@, path: store_path@, data: Seq::empty() })),
    {
        if already_present {
            return Err(FaError::AlreadyPresent { path: store_path });
        }
        let r = Store { name: name.clone(), path: store_path, data: Vec::new() };
        assert(creds_view(r.data@) =~= Seq::<CredentialView>::empty());
        Ok(r)
    }

    /// The store `name` kept at `store_path`, holding `data`, the
    /// credentials read back from its file.
    pub fn load(name: &String, store_path: String, data: Vec<Credential>) -> (r: Store)
        ensures
            r@ == (StoreView { name: name@, path: store_path@, data: creds_view(data@) }),
    {
        Store { name: name.clone(), path: store_path, data }
    }

    /// The path of the file of store `store_name` in the directory
    /// `base_path`: `{base_path}/{store_name}.fa`.
    pub fn get_file_path(store_name: &String, base_path: &String) -> (r: String)
        ensures
            r@ == store_file_path(store_name@, base_path@),
    {
        let with_sep = joined(base_path.as_str(), "/");
        let with_name = joined(with_sep.as_str(), store_name.as_str());
        joined(with_name.as_str(), ".fa")
    }

    /// The first position of a credential with exactly this user and
    /// password, if there is one.
    pub fn position(&self, user: &str, password: &str) -> (r: Option<usize>)
        ensures
            r matches Some(i) ==> (first_match(self@.data, user@, password@, i as int)),
            r is None <==> !holds_identity(self@.data, user@, password@),
    {
        let n = self.data.len();
        let mut i: usize = 0;
        while i < n
            invariant
                n == self.data@.len(),
                i <= n,
                forall|j: int| 0 <= j < i ==> !identified_by(#[trigger] self@.data[j], user@, password@),
            decreases n - i,
        {
            if self.data[i].is_identified_by(user, password) {
                assert(identified_by(self@.data[i as int], user@, password@));
                return Some(i);
            }
            i = i + 1;
        }
        None
    }

    /// Whether a credential with exactly this user and password is stored.
    pub fn contains(&self, user: &str, password: &str) -> (r: bool)
        ensures
            r == holds_identity(self@.data, user@, password@),
    {
        self.position(user, password).is_some()
    }

    /// Appends `cred`, unless a credential with the same user and password
    /// is stored already: then the store is left as it was and
    /// [`FaError::DuplicateCredential`] comes back.
    pub fn add(&mut self, cred: Credential) -> (r: Result<(), FaError>)
        ensures
            final(self).name == old(self).name,
            final(self).path == old(self).path,
            match add_outcome(old(self)@.data, cred@) {
                Some(next) => r is Ok && final(self)@.data == next,
                None => r matches Err(FaError::DuplicateCredential) && final(self)@.data == old(self)@.data,
            },
            holds_identity(final(self)@.data, cred@.user, cred@.password),
    {
        if self.contains(cred.user.as_str(), cred.password.as_str()) {
            return Err(FaError::DuplicateCredential);
        }
        proof {
            lemma_creds_view_push(self.data@, cred);
        }
        self.data.push(cred);
        assert(identified_by(self@.data[self@.data.len() - 1], cred@.user, cred@.password));
        Ok(())
    }

    /// Removes the first credential with exactly this user and password,
    /// and tells whether there was one. Finding none is no error.
    pub fn remove(&mut self, user: &str, password: &str) -> (r: bool)
        ensures
            final(self).name == old(self).name,
            final(self).path == old(self).path,
            r == holds_identity(old(self)@.data, user@, password@),
            r ==> exists|i: int| first_match(old(self)@.data, user@, password@, i)
                && final(self)@.data == old(self)@.data.remove(i),
            !r ==> final(self)@.data == old(self)@.data,
    {
        match self.position(user, password) {
            Some(i) => {
                let ghost before = self.data@;
                self.data.remove(i);
                assert(creds_view(self.data@) =~= creds_view(before).remove(i as int));
                true
            },
            None => false,
        }
    }

    /// The credentials whose user starts with `query`, compared in lower
    /// case, and that pass `filter`, in the order of the store.
    pub fn search(&self, query: &str, filter: &Option<Filter>) -> (r: Vec<Credential>)
        ensures
            creds_view(r@) == search_result(self@.data, query@, opt_filter_view(*filter)),
    {
        let lowered_query = lowercase(query);
        let mut found: Vec<Credential> = Vec::new();
        let n = self.data.len();
        let mut i: usize = 0;
        while i < n
            invariant
                n == self.data@.len(),
                i <= n,
                lowered_query@ == crate::search::lower_of(query@),
                creds_view(found@) == search_result(self@.data.take(i as int), query@, opt_filter_view(*filter)),
            decreases n - i,
        {
            let cred = &self.data[i];
            let lowered_user = lowercase(cred.user.as_str());
            assert(self@.data.take(i + 1).drop_last() =~= self@.data.take(i as int));
            assert(self@.data.take(i + 1).last() == cred@);
            if credential_passes(lowered_query.as_str(), lowered_user.as_str(), cred, filter) {
                let c = cred.duplicate();
                proof {
                    lemma_creds_view_push(found@, c);
                }
                found.push(c);
            }
            i = i + 1;
        }
        assert(self@.data.take(n as int) =~= self@.data);
        found
    }
}

} // verus!

verus! {

/// Adding a credential a second time is refused: whatever the first add
/// gave, the second finds the same user and password present.
pub proof fn lemma_add_twice_rejected(s: Seq<CredentialView>, c: CredentialView)
    ensures
        add_outcome(
            match add_outcome(s, c) {
                Some(next) => next,
                None => s,
            },
            c,
        ) is None,
{
    if !holds_identity(s, c.user, c.password) {
        let next = s.push(c);
        assert(identified_by(next[s.len() as int], c.user, c.password));
    }
}

} // verus!
