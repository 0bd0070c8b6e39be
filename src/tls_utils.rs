//! TLS material under `<root>/keys/`: where it lives, what clearing stale
//! files removes, and the OpenSSL commands that make a new key and
//! self-signed certificate.

use vstd::prelude::*;
use crate::consts::{join_path, join_spec};

verus! {

pub const KEYS_DIR: &'static str = "keys";

pub const TLS_KEY_FILE: &'static str = "tls-key.pem";

pub const TLS_CERT_FILE: &'static str = "tls-cert.pem";

/// A signing request that older versions left behind.
pub const TLS_CSR_FILE: &'static str = "tls-csr.csr";

/// Validity of the certificate in days: a hundred years.
pub const CERT_DAYS: &'static str = "36500";

/// `<root>/keys`.
pub open spec fn keys_dir_spec(root: Seq<char>) -> Seq<char> {
    join_spec(root, KEYS_DIR@)
}

/// `<root>/keys/<file>`.
pub open spec fn tls_path_spec(root: Seq<char>, file: Seq<char>) -> Seq<char> {
    join_spec(keys_dir_spec(root), file)
}

/// The directory that holds the TLS files.
pub fn keys_dir(root: &str) -> (r: String)
    ensures
        r@ == keys_dir_spec(root@),
{
    join_path(root, KEYS_DIR)
}

fn tls_path(root: &str, file: &str) -> (r: String)
    ensures
        r@ == tls_path_spec(root@, file@),
{
    join_path(keys_dir(root).as_str(), file)
}

/// The TLS material is present when the keys directory holds both the
/// certificate and the key.
pub fn check_tls_cert(keys_dir_exists: bool, cert_exists: bool, key_exists: bool) -> (r: bool)
    ensures
        r == (keys_dir_exists && cert_exists && key_exists),
{
    keys_dir_exists && cert_exists && key_exists
}

/// The certificate path and the key path, in that order.
pub fn get_cert_paths(root: &str) -> (r: [String; 2])
    ensures
        r@[0]@ == tls_path_spec(root@, TLS_CERT_FILE@),
        r@[1]@ == tls_path_spec(root@, TLS_KEY_FILE@),
{
    [tls_path(root, TLS_CERT_FILE), tls_path(root, TLS_KEY_FILE)]
}

/// The paths that clearing removes: those of key, certificate and signing
/// request, in that order, that exist (`present[i]` for the `i`-th).
pub open spec fn clear_paths(root: Seq<char>, present: Seq<bool>) -> Seq<Seq<char>> {
    (if present[0] {
        seq![tls_path_spec(root, TLS_KEY_FILE@)]
    } else {
        seq![]
    }) + (if present[1] {
        seq![tls_path_spec(root, TLS_CERT_FILE@)]
    } else {
        seq![]
    }) + (if present[2] {
        seq![tls_path_spec(root, TLS_CSR_FILE@)]
    } else {
        seq![]
    })
}

/// What clearing stale TLS files takes on disk.
pub struct ClearPlan {
    /// The keys directory is missing and must be created.
    pub create_keys_dir: bool,
    /// Files to remove, in order.
    pub remove: Vec<String>,
}

/// Plans the removal of stale TLS files: a missing keys directory is
/// created; else each of key, certificate and signing request that exists
/// is removed.
pub fn clear_tls_cert(root: &str, keys_dir_exists: bool, present: [bool; 3]) -> (r: ClearPlan)
    ensures
        r.create_keys_dir == !keys_dir_exists,
        !keys_dir_exists ==> r.remove@.len() == 0,
        keys_dir_exists ==> r.remove@.map_values(|p: String| p@) =~= clear_paths(
            root@,
            present@,
        ),
{
    if !keys_dir_exists {
        return ClearPlan { create_keys_dir: true, remove: Vec::new() };
    }
    let mut remove: Vec<String> = Vec::new();
    if present[0] {
        remove.push(tls_path(root, TLS_KEY_FILE));
    }
    let ghost first = remove@;
    if present[1] {
        remove.push(tls_path(root, TLS_CERT_FILE));
    }
    let ghost second = remove@;
    if present[2] {
        remove.push(tls_path(root, TLS_CSR_FILE));
    }
    proof {
        let f = |p: String| p@;
        assert(first.map_values(f) =~= (if present@[0] {
            seq![tls_path_spec(root@, TLS_KEY_FILE@)]
        } else {
            seq![]
        }));
        assert(second.map_values(f) =~= first.map_values(f) + (if present@[1] {
            seq![tls_path_spec(root@, TLS_CERT_FILE@)]
        } else {
            seq![]
        }));
        assert(remove@.map_values(f) =~= second.map_values(f) + (if present@[2] {
            seq![tls_path_spec(root@, TLS_CSR_FILE@)]
        } else {
            seq![]
        }));
    }
    ClearPlan { create_keys_dir: false, remove }
}

/// The two OpenSSL runs that make the TLS material: an EC P-256 private
/// key, then a self-signed certificate for it valid for 100 years.
pub fn gen_tls_cert(root: &str) -> (r: Vec<Vec<String>>)
    ensures
        r@.len() == 2,
        r@[0]@.map_values(|a: String| a@) =~= seq![
            "openssl"@,
            "ecparam"@,
            "-name"@,
            "secp256r1"@,
            "-genkey"@,
            "-noout"@,
            "-out"@,
            tls_path_spec(root@, TLS_KEY_FILE@),
        ],
        r@[1]@.map_values(|a: String| a@) =~= seq![
            "openssl"@,
            "req"@,
            "-x509"@,
            "-new"@,
            "-key"@,
            tls_path_spec(root@, TLS_KEY_FILE@),
            "-out"@,
            tls_path_spec(root@, TLS_CERT_FILE@),
            "-days"@,
            CERT_DAYS@,
        ],
{
    let key = tls_path(root, TLS_KEY_FILE);
    let cert = tls_path(root, TLS_CERT_FILE);
    let genkey = vec![
        String::from_str("openssl"),
        String::from_str("ecparam"),
        String::from_str("-name"),
        String::from_str("secp256r1"),
        String::from_str("-genkey"),
        String::from_str("-noout"),
        String::from_str("-out"),
        key.clone(),
    ];
    let gencert = vec![
        String::from_str("openssl"),
        String::from_str("req"),
        String::from_str("-x509"),
        String::from_str("-new"),
        String::from_str("-key"),
        key,
        String::from_str("-out"),
        cert,
        String::from_str("-days"),
        String::from_str(CERT_DAYS),
    ];
    vec![genkey, gencert]
}

/// The names in the keys directory, `None` when it is missing.
pub type KeysView = Option<Set<Seq<char>>>;

/// The keys directory after clearing: created when missing, else without
/// the three TLS files.
pub open spec fn clear_model(d: KeysView) -> Set<Seq<char>> {
    match d {
        None => Set::empty(),
        Some(s) => s.remove(TLS_KEY_FILE@).remove(TLS_CERT_FILE@).remove(TLS_CSR_FILE@),
    }
}

/// The keys directory after a generation: cleared, then holding the new
/// key and certificate.
pub open spec fn gen_model(d: KeysView) -> KeysView {
    Some(clear_model(d).insert(TLS_KEY_FILE@).insert(TLS_CERT_FILE@))
}

/// Generation is idempotent: after one or two generations in a row the
/// keys directory holds the key and the certificate, no signing request,
/// and the same files either way.
pub proof fn lemma_regeneration_idempotent(d: KeysView)
    ensures
        gen_model(gen_model(d)) == gen_model(d),
        gen_model(d).unwrap().contains(TLS_KEY_FILE@),
        gen_model(d).unwrap().contains(TLS_CERT_FILE@),
        !gen_model(d).unwrap().contains(TLS_CSR_FILE@),
{
    reveal_strlit("tls-key.pem");
    reveal_strlit("tls-cert.pem");
    reveal_strlit("tls-csr.csr");
    let once = gen_model(d).unwrap();
    assert(clear_model(Some(once)).insert(TLS_KEY_FILE@).insert(TLS_CERT_FILE@) =~= once);
    assert(TLS_CSR_FILE@ == "tls-csr.csr"@);
    assert(TLS_KEY_FILE@ == "tls-key.pem"@);
    assert(TLS_CERT_FILE@ == "tls-cert.pem"@);
    assert(TLS_CSR_FILE@[4] != TLS_KEY_FILE@[4]);
    assert(TLS_CSR_FILE@[5] != TLS_CERT_FILE@[5]);
}

} // verus!
