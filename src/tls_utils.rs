//! Certificates: reading keypairs from PEM, and the resolver the TLS handshake
//! consults by server name.
use crate::config::{CertificateConfig, TlsConfig};
use crate::error::CertificateError;
use vstd::hash_map::StringHashMap;
use vstd::prelude::*;

verus! {

/// The DER certificates `rustls_pemfile::certs` finds in a PEM text, or `None` where it fails.
pub uninterp spec fn pem_certificates(pem: Seq<u8>) -> Option<Seq<Seq<u8>>>;

/// The DER keys `rustls_pemfile::pkcs8_private_keys` finds in a PEM text, or `None` where it fails.
pub uninterp spec fn pem_pkcs8_keys(pem: Seq<u8>) -> Option<Seq<Seq<u8>>>;

/// Relies on `rustls_pemfile::certs`: the certificates depend on the text alone.
#[verifier::external_body]
fn read_pem_certs(pem: &Vec<u8>) -> (r: Option<Vec<Vec<u8>>>)
    ensures
        match r {
            Some(v) => pem_certificates(pem@) == Some(v.deep_view()),
            None => pem_certificates(pem@) is None,
        },
{
    let mut rd: &[u8] = pem.as_slice();
    rustls_pemfile::certs(&mut rd).ok()
}

/// Relies on `rustls_pemfile::pkcs8_private_keys`: the keys depend on the text alone.
#[verifier::external_body]
fn read_pem_pkcs8_keys(pem: &Vec<u8>) -> (r: Option<Vec<Vec<u8>>>)
    ensures
        match r {
            Some(v) => pem_pkcs8_keys(pem@) == Some(v.deep_view()),
            None => pem_pkcs8_keys(pem@) is None,
        },
{
    let mut rd: &[u8] = pem.as_slice();
    rustls_pemfile::pkcs8_private_keys(&mut rd).ok()
}

/// A certificate chain and its private key, DER-encoded.
#[derive(Debug)]
pub struct Keypair {
    pub chain: Vec<Vec<u8>>,
    pub key: Vec<u8>,
}

/// Which error, if any, parsed PEM contents give: 0 when the certificates do not
/// parse, 1 when there is no certificate, 2 when the keys do not parse, 3 when
/// there is no key.
pub open spec fn keypair_problem(
    certs: Option<Seq<Seq<u8>>>,
    keys: Option<Seq<Seq<u8>>>,
) -> Option<int> {
    match certs {
        None => Some(0),
        Some(c) => if c.len() == 0 {
            Some(1)
        } else {
            match keys {
                None => Some(2),
                Some(k) => if k.len() == 0 {
                    Some(3)
                } else {
                    None
                },
            }
        },
    }
}

/// A keypair from parsed PEM contents: the certificates must have parsed and be
/// at least one, the keys must have parsed and the first one is used.
pub fn keypair_from_parsed(
    certs: Option<Vec<Vec<u8>>>,
    keys: Option<Vec<Vec<u8>>>,
    cert_file: &str,
) -> (r: Result<Keypair, CertificateError>)
    ensures
        match certs {
            None => r matches Err(CertificateError::LoadFailed { path, .. }) && path@ == cert_file@,
            Some(c) => if c@.len() == 0 {
                r matches Err(CertificateError::InvalidFormat { .. })
            } else {
                match keys {
                    None => r matches Err(CertificateError::PrivateKey { .. }),
                    Some(k) => if k@.len() == 0 {
                        r matches Err(CertificateError::PrivateKey { .. })
                    } else {
                        r matches Ok(kp) && kp.chain.deep_view() == c.deep_view() && kp.key@
                            == k@[0]@
                    },
                }
            },
        },
{
    let chain = match certs {
        None => {
            return Err(
                CertificateError::LoadFailed {
                    path: cert_file.to_owned(),
                    reason: "Failed to parse certificate".to_owned(),
                },
            );
        },
        Some(c) => c,
    };
    if chain.len() == 0 {
        return Err(
            CertificateError::InvalidFormat {
                reason: "No certificates found in certificate file".to_owned(),
            },
        );
    }
    let mut keys = match keys {
        None => {
            return Err(
                CertificateError::PrivateKey { reason: "Failed to parse private key".to_owned() },
            );
        },
        Some(k) => k,
    };
    if keys.len() == 0 {
        return Err(
            CertificateError::PrivateKey { reason: "No private key found in key file".to_owned() },
        );
    }
    let key = keys.swap_remove(0);
    Ok(Keypair { chain, key })
}

/// Parse a keypair from the contents of its certificate and key files.
pub fn parse_keypair(cert_pem: &Vec<u8>, key_pem: &Vec<u8>, cert_file: &str) -> (r: Result<
    Keypair,
    CertificateError,
>)
    ensures
        keypair_problem(pem_certificates(cert_pem@), pem_pkcs8_keys(key_pem@)) is None <==> r is Ok,
        keypair_problem(pem_certificates(cert_pem@), pem_pkcs8_keys(key_pem@)) == Some(0int) ==> (r matches Err(
            CertificateError::LoadFailed { path, .. },
        ) && path@ == cert_file@),
        keypair_problem(pem_certificates(cert_pem@), pem_pkcs8_keys(key_pem@)) == Some(1int) ==> r matches Err(
            CertificateError::InvalidFormat { .. },
        ),
        keypair_problem(pem_certificates(cert_pem@), pem_pkcs8_keys(key_pem@)) == Some(2int) ==> r matches Err(
            CertificateError::PrivateKey { .. },
        ),
        keypair_problem(pem_certificates(cert_pem@), pem_pkcs8_keys(key_pem@)) == Some(3int) ==> r matches Err(
            CertificateError::PrivateKey { .. },
        ),
        r matches Ok(kp) ==> {
            &&& Some(kp.chain.deep_view()) == pem_certificates(cert_pem@)
            &&& pem_pkcs8_keys(key_pem@) is Some
            &&& kp.key@ == pem_pkcs8_keys(key_pem@)->Some_0[0]
        },
{
    let certs = read_pem_certs(cert_pem);
    if certs.is_none() {
        return keypair_from_parsed(certs, None, cert_file);
    }
    let keys = read_pem_pkcs8_keys(key_pem);
    let r = keypair_from_parsed(certs, keys, cert_file);
    proof {
        if r is Ok {
            let k = keys->Some_0;
            assert(k.deep_view()[0] == k@[0]@);
        }
    }
    r
}

/// Holds the signing keys by server name, for the TLS handshake to look up.
///
/// Keys are only ever added: once a name has a key, every later lookup of that
/// name returns that same key.
#[verifier::reject_recursive_types(K)]
pub struct CertificateResolver<K> {
    tls: TlsConfig,
    cert_cache: StringHashMap<K>,
    default_key: Option<K>,
}

impl<K> CertificateResolver<K> {
    /// The keys installed, by server name.
    pub closed spec fn cache(&self) -> Map<Seq<char>, K> {
        self.cert_cache@
    }

    /// The key installed for names without their own.
    pub closed spec fn fallback(&self) -> Option<K> {
        self.default_key
    }

    /// The configured keypair files, by server name.
    pub closed spec fn tls(&self) -> TlsConfig {
        self.tls
    }

    /// The key presented for `name`: its own, or else the fallback.
    pub open spec fn key_for(&self, name: Seq<char>) -> Option<K> {
        if self.cache().contains_key(name) {
            Some(self.cache()[name])
        } else {
            self.fallback()
        }
    }

    /// A resolver over `tls` with no key installed.
    pub fn new(tls: TlsConfig) -> (r: Self)
        ensures
            r.cache().dom() == Set::<Seq<char>>::empty(),
            r.fallback() is None,
            r.tls() == tls,
    {
        let cert_cache = StringHashMap::new();
        assert(cert_cache@.dom() =~= Set::<Seq<char>>::empty());
        CertificateResolver { tls, cert_cache, default_key: None }
    }

    /// The keypair files to load for `name`: its own, or the default, or `NotConfigured`.
    pub fn keypair_files(&self, name: &str) -> (r: Result<&CertificateConfig, CertificateError>)
        ensures
            match r {
                Ok(c) => self.tls().cert_for(name@) == Some(*c),
                Err(e) => {
                    &&& self.tls().cert_for(name@) is None
                    &&& e matches CertificateError::NotConfigured { domain }
                    &&& e->domain@ == name@
                },
            },
    {
        self.tls.get_cert_config_or_err(name)
    }

    /// Whether `name` has its own key installed.
    pub fn is_installed(&self, name: &str) -> (r: bool)
        ensures
            r == self.cache().contains_key(name@),
    {
        self.cert_cache.contains_key(name)
    }

    /// The key to present for the server name a client asked for.
    pub fn resolve(&self, name: &str) -> (r: Option<&K>)
        ensures
            match r {
                Some(k) => self.key_for(name@) == Some(*k),
                None => self.key_for(name@) is None,
            },
    {
        match self.cert_cache.get(name) {
            Some(k) => Some(k),
            None => self.default_key.as_ref(),
        }
    }

    /// Install `key` for `name`, unless `name` already has one; the first key stays.
    pub fn install(&mut self, name: String, key: K)
        ensures
            final(self).cache() == if old(self).cache().contains_key(name@) {
                old(self).cache()
            } else {
                old(self).cache().insert(name@, key)
            },
            final(self).fallback() == old(self).fallback(),
            final(self).tls() == old(self).tls(),
    {
        if !self.cert_cache.contains_key(name.as_str()) {
            self.cert_cache.insert(name, key);
        }
    }

    /// Install `key` for names without their own, unless one is installed already.
    pub fn install_fallback(&mut self, key: K)
        ensures
            final(self).fallback() == if old(self).fallback() is Some {
                old(self).fallback()
            } else {
                Some(key)
            },
            final(self).cache() == old(self).cache(),
            final(self).tls() == old(self).tls(),
    {
        if self.default_key.is_none() {
            self.default_key = Some(key);
        }
    }
}

/// Once a name has its own key, installing keys (for it or any other name) never
/// changes the key resolved for it.
pub proof fn lemma_installed_key_is_stable<K>(
    before: CertificateResolver<K>,
    after: CertificateResolver<K>,
    name: Seq<char>,
    other: Seq<char>,
    key: K,
)
    requires
        before.cache().contains_key(name),
        after.cache() == if before.cache().contains_key(other) {
            before.cache()
        } else {
            before.cache().insert(other, key)
        },
    ensures
        after.cache().contains_key(name),
        after.key_for(name) == before.key_for(name),
{
}

} // verus!
