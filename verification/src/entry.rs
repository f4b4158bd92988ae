//! The credential entry model carried inside a vault.

use vstd::prelude::*;
use vstd::string::StringSliceAdditionalSpecFns;

verus! {

/// One address at which a credential is used.
#[derive(Debug, Clone)]
pub struct Uri {
    pub uri: String,
}

/// The login part of an entry.
#[derive(Debug, Clone)]
pub struct Login {
    pub uris: Vec<Uri>,
    pub username: Option<String>,
    pub password: String,
    pub totp: Option<String>,
}

/// One credential entry of a vault.
#[derive(Debug, Clone)]
pub struct Entry {
    pub id: String,
    pub name: String,
    pub notes: Option<String>,
    pub login: Login,
}

/// The error of `serde_json`. Nothing in this module makes one.
#[verifier::external_type_specification]
#[verifier::external_body]
pub struct ExJsonError(serde_json::Error);

/// Longest text, in bytes, that an entry field accepts.
pub const FIELD_CAPACITY: usize = 200;

/// The addresses of one login, in order.
pub open spec fn login_uris(login: Login) -> Seq<Seq<char>> {
    Seq::new(login.uris@.len(), |i: int| login.uris@[i].uri@)
}

/// The addresses of all entries: those of the first entry in their order,
/// then those of the second, and so on.
pub open spec fn all_uris(entries: Seq<Entry>) -> Seq<Seq<char>>
    decreases entries.len(),
{
    if entries.len() == 0 {
        Seq::empty()
    } else {
        all_uris(entries.drop_last()) + login_uris(entries.last().login)
    }
}

/// The views of a vector of strings.
pub open spec fn texts(v: Seq<String>) -> Seq<Seq<char>> {
    Seq::new(v.len(), |i: int| v[i]@)
}

/// Collects the addresses of all entries in display order. It never fails.
pub fn get_uris(json_entries: Vec<Entry>) -> (r: Result<Vec<String>, serde_json::Error>)
    ensures
        r matches Ok(uris) && texts(uris@) == all_uris(json_entries@),
{
    let mut uris: Vec<String> = Vec::new();
    let mut i: usize = 0;
    while i < json_entries.len()
        invariant
            i <= json_entries.len(),
            texts(uris@) =~= all_uris(json_entries@.take(i as int)),
        decreases json_entries.len() - i,
    {
        let ghost before = uris@;
        let entry = &json_entries[i];
        let mut j: usize = 0;
        while j < entry.login.uris.len()
            invariant
                j <= entry.login.uris.len(),
                texts(uris@) =~= texts(before) + login_uris(entry.login).take(j as int),
            decreases entry.login.uris.len() - j,
        {
            let ghost so_far = uris@;
            uris.push(entry.login.uris[j].uri.clone());
            proof {
                let all = login_uris(entry.login);
                assert(all.take(j as int + 1) =~= all.take(j as int).push(all[j as int]));
                assert(texts(uris@) =~= texts(so_far).push(all[j as int]));
            }
            j += 1;
        }
        proof {
            let next = json_entries@.take(i as int + 1);
            assert(next.drop_last() =~= json_entries@.take(i as int));
            assert(next.last() == json_entries@[i as int]);
            assert(login_uris(entry.login).take(j as int) =~= login_uris(entry.login));
        }
        i += 1;
    }
    proof {
        assert(json_entries@.take(i as int) =~= json_entries@);
    }
    Ok(uris)
}

/// Whether a field's text fits: at most `FIELD_CAPACITY` bytes of UTF-8.
pub fn validate_string_length(string: &str) -> (fits: bool)
    ensures
        fits == (string.spec_bytes().len() <= FIELD_CAPACITY),
{
    string.as_bytes().len() <= FIELD_CAPACITY
}

} // verus!
