//! Credential store: a read-only table of usernames and stored password
//! hashes, loaded once at startup from a TOML user file.  Lookup is an
//! exact, case-sensitive match; an unknown user is an empty result, not an
//! error, so callers can treat "no such user" and "wrong password" alike.

use vstd::prelude::*;

verus! {

/// One loaded record: the username and, where the user's configuration
/// entry carries a well-formed `password` string field, the stored hash.
pub struct UserRecord {
    pub username: String,
    pub password_hash: Option<String>,
}

/// What parsing a TOML user table yields for a given text: `None` when the
/// text is not valid TOML, otherwise the (username, optional hash) pairs in
/// the deterministic order the parser stores them, a pair's hash being
/// `None` where the user's entry has no `password` string field.
pub uninterp spec fn toml_credentials(text: Seq<char>) -> Option<
    Seq<(Seq<char>, Option<Seq<char>>)>,
>;

/// Relies on `str::parse::<toml::Table>` and `toml::Value::{get, as_str}`:
/// parsing fails exactly on invalid TOML, each top-level entry is carried
/// over as its key together with its `password` string field, if any, and
/// the result depends on the text alone.
#[verifier::external_body]
fn parse_toml_credentials(text: &str) -> (r: Option<Vec<(String, Option<String>)>>)
    ensures
        r.deep_view() == toml_credentials(text@),
{
    match text.parse::<toml::Table>() {
        Ok(table) => Some(
            table
                .into_iter()
                .map(
                    |(k, v)|
                        (k, v.get("password").and_then(|p| p.as_str()).map(|s| s.to_string())),
                )
                .collect(),
        ),
        Err(_) => None,
    }
}

/// The stored hash field for `name`: `None` when no record has that exact
/// username, `Some(h)` for the first record that does, `h` itself being
/// `None` where that record is malformed.
pub open spec fn stored_hash(
    entries: Seq<(Seq<char>, Option<Seq<char>>)>,
    name: Seq<char>,
) -> Option<Option<Seq<char>>>
    decreases entries.len(),
{
    if entries.len() == 0 {
        None
    } else if entries[0].0 == name {
        Some(entries[0].1)
    } else {
        stored_hash(entries.drop_first(), name)
    }
}

/// Exact string comparison, stated over the character sequences.
pub fn str_eq(a: &str, b: &str) -> (r: bool)
    ensures
        r == (a@ == b@),
{
    let sa: String = a.to_owned();
    let sb: String = b.to_owned();
    sa == sb
}

/// The credential table, immutable after loading.
pub struct CredentialStore {
    entries: Vec<(String, Option<String>)>,
}

impl CredentialStore {
    /// The records, as (username, optional stored hash) pairs.
    pub closed spec fn view(&self) -> Seq<(Seq<char>, Option<Seq<char>>)> {
        self.entries.deep_view()
    }

    /// Load the store from the text of a TOML user file; invalid TOML is
    /// the only way loading fails.
    pub fn from_toml(text: &str) -> (r: Option<CredentialStore>)
        ensures
            match r {
                Some(store) => toml_credentials(text@) == Some(store@),
                None => toml_credentials(text@) is None,
            },
    {
        match parse_toml_credentials(text) {
            Some(entries) => Some(CredentialStore { entries }),
            None => None,
        }
    }

    /// Build a store directly from (username, optional hash) records.
    pub fn from_records(entries: Vec<(String, Option<String>)>) -> (r: CredentialStore)
        ensures
            r@ == entries.deep_view(),
    {
        CredentialStore { entries }
    }

    /// Exact, case-sensitive lookup.  An unknown username is an empty
    /// result; no error distinguishes it from any other failure.
    pub fn lookup(&self, username: &str) -> (r: Option<UserRecord>)
        ensures
            match r {
                Some(rec) => {
                    &&& stored_hash(self@, username@) == Some(rec.password_hash.deep_view())
                    &&& rec.username@ == username@
                },
                None => stored_hash(self@, username@) is None,
            },
    {
        let ghost s = self.entries.deep_view();
        let n = self.entries.len();
        let mut k: usize = 0;
        proof {
            assert(s.skip(0) =~= s);
        }
        while k < n
            invariant
                n == self.entries@.len(),
                s == self.entries.deep_view(),
                s.len() == n,
                0 <= k <= n,
                stored_hash(s, username@) == stored_hash(s.skip(k as int), username@),
            decreases n - k,
        {
            let hit = str_eq(self.entries[k].0.as_str(), username);
            proof {
                assert(s.skip(k as int)[0] == s[k as int]);
            }
            if hit {
                let record = UserRecord {
                    username: self.entries[k].0.clone(),
                    password_hash: match &self.entries[k].1 {
                        Some(h) => Some(h.clone()),
                        None => None,
                    },
                };
                return Some(record);
            }
            proof {
                assert(s.skip(k as int).drop_first() =~= s.skip(k as int + 1));
            }
            k = k + 1;
        }
        proof {
            assert(s.skip(n as int).len() == 0);
        }
        None
    }
}

} // verus!
