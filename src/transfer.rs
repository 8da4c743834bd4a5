use vstd::prelude::*;
use crate::credential::{creds_view, holds_identity, identified_by, opt_view, copy_opt, Credential, CredentialView};
use crate::store::Store;
use crate::text::owned;

verus! {

/// One row of a CSV file of logins: `username`, `password` and an optional
/// `url`.
#[derive(Debug, Clone)]
pub struct ParsedCredential {
    pub username: String,
    pub password: String,
    pub url: Option<String>,
}

/// The mathematical value of a [`ParsedCredential`].
pub struct ParsedCredentialView {
    pub username: Seq<char>,
    pub password: Seq<char>,
    pub url: Option<Seq<char>>,
}

impl View for ParsedCredential {
    type V = ParsedCredentialView;

    open spec fn view(&self) -> ParsedCredentialView {
        ParsedCredentialView { username: self.username@, password: self.password@, url: opt_view(self.url) }
    }
}

/// The values of a sequence of rows.
pub open spec fn rows_view(rows: Seq<ParsedCredential>) -> Seq<ParsedCredentialView> {
    rows.map_values(|r: ParsedCredential| r@)
}

/// The credential that an imported row becomes: its url is the site, and
/// it has no tag.
pub open spec fn imported_credential(row: ParsedCredentialView) -> CredentialView {
    CredentialView { user: row.username, password: row.password, tag: None, site: row.url }
}

/// The credentials that importing `rows` into `s` leaves, and how many rows
/// were taken. Rows are taken in order; a row whose user and password are
/// present already, from `s` or from an earlier row, is skipped.
pub open spec fn import_outcome(s: Seq<CredentialView>, rows: Seq<ParsedCredentialView>) -> (Seq<CredentialView>, nat)
    decreases rows.len(),
{
    if rows.len() == 0 {
        (s, 0)
    } else {
        let prev = import_outcome(s, rows.drop_last());
        let row = rows.last();
        if holds_identity(prev.0, row.username, row.password) {
            prev
        } else {
            (prev.0.push(imported_credential(row)), prev.1 + 1)
        }
    }
}

/// The header of an exported CSV file.
pub open spec fn export_header() -> Seq<Seq<char>> {
    seq!["username"@, "password"@, "url"@]
}

/// The CSV row of one credential: user, password and site, an absent site
/// written empty. The tag is not exported.
pub open spec fn export_row(c: CredentialView) -> Seq<Seq<char>> {
    seq![c.user, c.password, match c.site { Some(s) => s, None => Seq::empty() }]
}

/// The rows of an exported CSV file: the header, then one row per
/// credential in store order.
pub open spec fn export_table(s: Seq<CredentialView>) -> Seq<Seq<Seq<char>>> {
    seq![export_header()] + s.map_values(|c: CredentialView| export_row(c))
}

/// The characters of each field of a record.
pub open spec fn record_view(v: Vec<String>) -> Seq<Seq<char>> {
    v@.map_values(|s: String| s@)
}

/// The characters of each field of each record.
pub open spec fn table_view(t: Seq<Vec<String>>) -> Seq<Seq<Seq<char>>> {
    t.map_values(|v: Vec<String>| record_view(v))
}

proof fn lemma_holds_identity_push(s: Seq<CredentialView>, c: CredentialView, user: Seq<char>, password: Seq<char>)
    requires
        holds_identity(s, user, password),
    ensures
        holds_identity(s.push(c), user, password),
{
    let i = choose|i: int| 0 <= i < s.len() && identified_by(#[trigger] s[i], user, password);
    assert(s.push(c)[i] == s[i]);
}

/// After an import, every imported row's user and password are present.
proof fn lemma_import_holds_rows(s: Seq<CredentialView>, rows: Seq<ParsedCredentialView>)
    ensures
        forall|k: int| 0 <= k < rows.len() ==> holds_identity(
            import_outcome(s, rows).0,
            (#[trigger] rows[k]).username,
            rows[k].password,
        ),
    decreases rows.len(),
{
    if rows.len() > 0 {
        let front = rows.drop_last();
        lemma_import_holds_rows(s, front);
        let prev = import_outcome(s, front);
        let row = rows.last();
        if !holds_identity(prev.0, row.username, row.password) {
            let next = prev.0.push(imported_credential(row));
            assert forall|k: int| 0 <= k < rows.len() implies holds_identity(next, (#[trigger] rows[k]).username, rows[k].password) by {
                if k < rows.len() - 1 {
                    assert(rows[k] == front[k]);
                    lemma_holds_identity_push(prev.0, imported_credential(row), rows[k].username, rows[k].password);
                } else {
                    assert(identified_by(next[prev.0.len() as int], row.username, row.password));
                }
            }
        } else {
            assert forall|k: int| 0 <= k < rows.len() implies holds_identity(prev.0, (#[trigger] rows[k]).username, rows[k].password) by {
                if k < rows.len() - 1 {
                    assert(rows[k] == front[k]);
                }
            }
        }
    }
}

/// Importing rows whose users and passwords are all present changes nothing.
proof fn lemma_import_present_rows(t: Seq<CredentialView>, rows: Seq<ParsedCredentialView>)
    requires
        forall|k: int| 0 <= k < rows.len() ==> holds_identity(t, (#[trigger] rows[k]).username, rows[k].password),
    ensures
        import_outcome(t, rows) == (t, 0nat),
    decreases rows.len(),
{
    if rows.len() > 0 {
        let front = rows.drop_last();
        assert forall|k: int| 0 <= k < front.len() implies holds_identity(t, (#[trigger] front[k]).username, front[k].password) by {
            assert(front[k] == rows[k]);
        }
        lemma_import_present_rows(t, front);
        assert(holds_identity(t, rows[rows.len() - 1].username, rows[rows.len() - 1].password));
    }
}

/// Importing the same rows a second time adds no credential and reports
/// none imported.
pub proof fn lemma_import_idempotent(s: Seq<CredentialView>, rows: Seq<ParsedCredentialView>)
    ensures
        import_outcome(import_outcome(s, rows).0, rows) == (import_outcome(s, rows).0, 0nat),
{
    lemma_import_holds_rows(s, rows);
    lemma_import_present_rows(import_outcome(s, rows).0, rows);
}

impl Store {
    /// Imports `rows` in order, skipping each row whose user and password
    /// are present already, and returns how many were imported.
    pub fn import(&mut self, rows: &Vec<ParsedCredential>) -> (r: usize)
        ensures
            final(self).name == old(self).name,
            final(self).path == old(self).path,
            (final(self)@.data, r as nat) == import_outcome(old(self)@.data, rows_view(rows@)),
    {
        let ghost start = self@.data;
        let n = rows.len();
        let mut count: usize = 0;
        let mut i: usize = 0;
        while i < n
            invariant
                n == rows@.len(),
                i <= n,
                count <= i,
                self.name == old(self).name,
                self.path == old(self).path,
                start == old(self)@.data,
                (self@.data, count as nat) == import_outcome(start, rows_view(rows@).take(i as int)),
            decreases n - i,
        {
            let row = &rows[i];
            assert(rows_view(rows@).take(i + 1).drop_last() =~= rows_view(rows@).take(i as int));
            assert(rows_view(rows@).take(i + 1).last() == row@);
            if !self.contains(row.username.as_str(), row.password.as_str()) {
                let cred = Credential {
                    user: row.username.clone(),
                    password: row.password.clone(),
                    tag: None,
                    site: copy_opt(&row.url),
                };
                assert(cred@ == imported_credential(row@));
                let ghost before = self.data@;
                self.data.push(cred);
                assert(creds_view(self.data@) =~= creds_view(before).push(cred@));
                count = count + 1;
            }
            i = i + 1;
        }
        assert(rows_view(rows@).take(n as int) =~= rows_view(rows@));
        count
    }

    /// The records of a CSV export of this store: the header
    /// `username,password,url`, then one record per credential in store
    /// order.
    pub fn export_records(&self) -> (r: Vec<Vec<String>>)
        ensures
            table_view(r@) == export_table(self@.data),
    {
        let mut header: Vec<String> = Vec::new();
        header.push(owned("username"));
        header.push(owned("password"));
        header.push(owned("url"));
        assert(record_view(header) =~= export_header());
        let mut table: Vec<Vec<String>> = Vec::new();
        table.push(header);
        let ghost head = seq![export_header()];
        assert(table_view(table@) =~= head);
        let n = self.data.len();
        let mut i: usize = 0;
        while i < n
            invariant
                n == self.data@.len(),
                i <= n,
                table_view(table@) =~= head + self@.data.take(i as int).map_values(|c: CredentialView| export_row(c)),
            decreases n - i,
        {
            let cred = &self.data[i];
            let mut record: Vec<String> = Vec::new();
            record.push(cred.user.clone());
            record.push(cred.password.clone());
            let url = match &cred.site {
                Some(s) => s.clone(),
                None => String::new(),
            };
            record.push(url);
            assert(record_view(record) =~= export_row(cred@));
            let ghost before = table@;
            table.push(record);
            assert(table_view(table@) =~= table_view(before).push(record_view(record)));
            assert(self@.data.take(i + 1).map_values(|c: CredentialView| export_row(c))
                =~= self@.data.take(i as int).map_values(|c: CredentialView| export_row(c)).push(export_row(cred@)));
            i = i + 1;
        }
        assert(self@.data.take(n as int) =~= self@.data);
        table
    }
}

} // verus!
