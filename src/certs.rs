//! The root signing identity: reused from its two stored files where both
//! exist, generated once where they do not.
use vstd::prelude::*;
use crate::external::generate_authority;

verus! {

/// File name of the stored certificate, in the application's data directory.
pub const CERT_FILE_NAME: &'static str = "yuri_ca.pem";

/// File name of the stored private key, in the application's data directory.
pub const KEY_FILE_NAME: &'static str = "yuri_ca.key";

/// Subject common name of a generated authority.
pub const AUTHORITY_COMMON_NAME: &'static str = "Yuri Proxy CA";

/// Subject organization of a generated authority.
pub const AUTHORITY_ORGANIZATION: &'static str = "Yuri App";

/// A generated authority may sign leaf certificates only.
pub const AUTHORITY_PATH_LEN: u8 = 0;

/// How many signed leaf certificates the TLS layer keeps.
pub const LEAF_CACHE_CAPACITY: u64 = 1000;

/// Why the authority could not be established.
#[derive(Debug)]
pub enum AuthorityError {
    /// Reading or writing the stored files failed.
    Io(String),
    /// Generating the key pair or the certificate failed.
    Crypto,
}

/// What to do to establish the authority.
#[derive(Debug, Clone, Copy, PartialEq, Eq, Structural)]
pub enum AuthorityPlan {
    /// Both files exist: read them and use their content unchanged.
    Load,
    /// Generate a new authority and store it.
    Generate,
}

/// The root identity in use, with the paths of its two files.
pub struct CaManager {
    pub cert_path: String,
    pub key_path: String,
    pub cert_pem: String,
    pub key_pem: String,
}

/// The authority is stored only where both files exist.
pub fn plan_authority(cert_exists: bool, key_exists: bool) -> (r: AuthorityPlan)
    ensures
        r == (if cert_exists && key_exists {
            AuthorityPlan::Load
        } else {
            AuthorityPlan::Generate
        }),
{
    if cert_exists && key_exists {
        AuthorityPlan::Load
    } else {
        AuthorityPlan::Generate
    }
}

/// What establishing the authority owes: stored material is used unchanged
/// and nothing is written; otherwise new material is generated and is to be
/// written, or generation fails.
pub open spec fn authority_established(
    cert_path: Seq<char>,
    key_path: Seq<char>,
    stored: Option<(String, String)>,
    r: Result<(CaManager, bool), AuthorityError>,
) -> bool {
    match r {
        Ok(o) => {
            &&& o.0.cert_path@ == cert_path
            &&& o.0.key_path@ == key_path
            &&& match stored {
                Some(s) => o.0.cert_pem@ == s.0@ && o.0.key_pem@ == s.1@ && !o.1,
                None => o.1,
            }
        },
        Err(e) => stored is None && e is Crypto,
    }
}

/// What the two files hold once the outcome `r` has been acted on.
pub open spec fn stored_after(stored: Option<(String, String)>, r: Result<(CaManager, bool), AuthorityError>) -> Option<(Seq<char>, Seq<char>)> {
    match r {
        Ok(o) => if o.1 {
            Some((o.0.cert_pem@, o.0.key_pem@))
        } else {
            match stored {
                Some(s) => Some((s.0@, s.1@)),
                None => None,
            }
        },
        Err(_) => match stored {
            Some(s) => Some((s.0@, s.1@)),
            None => None,
        },
    }
}

/// Establishing the authority a second time, from what the first time left
/// in the files, gives the same certificate and key and writes nothing.
pub proof fn lemma_authority_idempotent(
    cert_path: Seq<char>,
    key_path: Seq<char>,
    first_stored: Option<(String, String)>,
    first: Result<(CaManager, bool), AuthorityError>,
    second_stored: Option<(String, String)>,
    second: Result<(CaManager, bool), AuthorityError>,
)
    requires
        authority_established(cert_path, key_path, first_stored, first),
        first is Ok,
        second_stored matches Some(s) && stored_after(first_stored, first) == Some((s.0@, s.1@)),
        authority_established(cert_path, key_path, second_stored, second),
    ensures
        second matches Ok(o2) && first matches Ok(o1) && o2.0.cert_pem@ == o1.0.cert_pem@
            && o2.0.key_pem@ == o1.0.key_pem@,
        second matches Ok(o2) && !o2.1,
{
}

impl CaManager {
    /// Establishes the authority from the stored files' content, if both
    /// were there, or by generating a new one, which the caller then stores.
    /// The flag in the result says whether the files are to be written.
    pub fn new(
        cert_path: String,
        key_path: String,
        stored: Option<(String, String)>,
    ) -> (r: Result<(CaManager, bool), AuthorityError>)
        ensures
            authority_established(cert_path@, key_path@, stored, r),
    {
        match stored {
            Some((cert_pem, key_pem)) => Ok((CaManager { cert_path, key_path, cert_pem, key_pem }, false)),
            None => match generate_authority(AUTHORITY_COMMON_NAME, AUTHORITY_ORGANIZATION, AUTHORITY_PATH_LEN) {
                Ok((cert_pem, key_pem)) => Ok((CaManager { cert_path, key_path, cert_pem, key_pem }, true)),
                Err(_) => Err(AuthorityError::Crypto),
            },
        }
    }

    /// The certificate alone, as PEM text, for a client's trust store.
    pub fn get_ca_pem(&self) -> (r: String)
        ensures
            r@ == self.cert_pem@,
    {
        self.cert_pem.clone()
    }
}

} // verus!
