//! Key material for TLS termination and where it is looked up: a cache
//! first, then the store.

use vstd::prelude::*;
use vstd::string::*;

verus! {

/// Private key and certificate
#[derive(Clone, Debug)]
pub struct Keycert {
    /// Private key.
    pub key: Vec<u8>,
    /// Certificate.
    pub cert: Vec<u8>,
    /// OCSP response.
    pub ocsp_resp: Vec<u8>,
}

impl Keycert {
    /// Create a new keycert, with no key, certificate or OCSP response.
    pub fn new() -> (r: Self)
        ensures
            r.key@.len() == 0,
            r.cert@.len() == 0,
            r.ocsp_resp@.len() == 0,
    {
        Keycert { key: Vec::new(), cert: Vec::new(), ocsp_resp: Vec::new() }
    }

    /// Sets the TLS private key.
    pub fn key(self, key: Vec<u8>) -> (r: Self)
        ensures
            r.key@ == key@,
            r.cert@ == self.cert@,
            r.ocsp_resp@ == self.ocsp_resp@,
    {
        let mut s = self;
        s.key = key;
        s
    }

    /// Sets the TLS certificate.
    pub fn cert(self, cert: Vec<u8>) -> (r: Self)
        ensures
            r.cert@ == cert@,
            r.key@ == self.key@,
            r.ocsp_resp@ == self.ocsp_resp@,
    {
        let mut s = self;
        s.cert = cert;
        s
    }

    /// Get ocsp_resp.
    pub fn ocsp_resp(&self) -> (r: &[u8])
        ensures
            r@ == self.ocsp_resp@,
    {
        self.ocsp_resp.as_slice()
    }
}

impl Default for Keycert {
    fn default() -> (r: Self)
        ensures
            r.key@.len() == 0,
            r.cert@.len() == 0,
            r.ocsp_resp@.len() == 0,
    {
        Keycert::new()
    }
}

/// The kind of an input/output failure, as `std::io::ErrorKind` names it.
#[derive(PartialEq, Eq, Structural, Clone, Copy, Debug)]
pub enum IoKind {
    /// The entity was not found.
    NotFound,
    /// Any other kind.
    Other,
}

/// Why key material could not be had.
#[derive(Debug)]
pub enum Error {
    /// An input/output failure: its kind and its message.
    Io(IoKind, String),
    /// Any other failure, with its message.
    Other(String),
}

/// A source of certificates by server name.
pub trait CryptoStore {
    /// Whether `r` is an answer this store gives for `server_name`.
    spec fn answers(&self, server_name: Seq<char>, r: Result<Keycert, Error>) -> bool;

    /// Looks the certificate up; the answer is one that [`CryptoStore::answers`] admits.
    fn get_certificate(&self, server_name: &str) -> (r: Result<Keycert, Error>)
        ensures
            self.answers(server_name@, r);
}

/// A cache of certificates by server name.
pub trait CryptoCache {
    /// Whether `r` is an answer this cache gives for `server_name`.
    spec fn answers(&self, server_name: Seq<char>, r: Result<Keycert, Error>) -> bool;

    /// Looks the certificate up; the answer is one that [`CryptoCache::answers`] admits.
    fn get_certificate(&self, server_name: &str) -> (r: Result<Keycert, Error>)
        ensures
            self.answers(server_name@, r);
}

/// The certificate store backed by DynamoDB.
pub struct DynamoCryptoStore {}

impl DynamoCryptoStore {
    pub fn new() -> (r: Self) {
        DynamoCryptoStore {}
    }
}

impl CryptoStore for DynamoCryptoStore {
    /// Every server name gets an empty keycert.
    open spec fn answers(&self, server_name: Seq<char>, r: Result<Keycert, Error>) -> bool {
        r matches Ok(k) && k.key@.len() == 0 && k.cert@.len() == 0 && k.ocsp_resp@.len() == 0
    }

    /// Every server name gets an empty keycert.
    fn get_certificate(&self, server_name: &str) -> (r: Result<Keycert, Error>)
        ensures
            r matches Ok(k) && k.key@.len() == 0 && k.cert@.len() == 0 && k.ocsp_resp@.len() == 0,
    {
        Ok(Keycert::new())
    }
}

/// The message of a cache miss.
pub open spec fn not_cached_message() -> Seq<char> {
    "Certificate not found"@
}

/// The in-memory certificate cache.
pub struct MokaCryptoCache {}

impl MokaCryptoCache {
    pub fn new() -> (r: Self) {
        MokaCryptoCache {}
    }
}

impl CryptoCache for MokaCryptoCache {
    /// Nothing is cached yet: every lookup misses with a not-found I/O error.
    open spec fn answers(&self, server_name: Seq<char>, r: Result<Keycert, Error>) -> bool {
        r matches Err(Error::Io(k, m)) && k == IoKind::NotFound && m@ == not_cached_message()
    }

    /// Nothing is cached yet: every lookup misses.
    fn get_certificate(&self, server_name: &str) -> (r: Result<Keycert, Error>)
        ensures
            r matches Err(Error::Io(k, m)) && k == IoKind::NotFound && m@ == not_cached_message(),
    {
        Err(Error::Io(IoKind::NotFound, String::from_str("Certificate not found")))
    }
}

/// What a cache lookup means for the search.
pub enum CacheLookup {
    /// The cache had it: done.
    Hit(Keycert),
    /// Ask the store.
    Miss,
}

/// A cached certificate ends the search; any cache error sends it to the store.
pub fn after_cache(cached: Result<Keycert, Error>) -> (r: CacheLookup)
    ensures
        match cached {
            Ok(k) => r matches CacheLookup::Hit(h) && h == k,
            Err(_) => r is Miss,
        },
{
    match cached {
        Ok(k) => CacheLookup::Hit(k),
        Err(_) => CacheLookup::Miss,
    }
}

/// Looks certificates up in a cache, then in a store.
pub struct CryptoManager<'a, S: CryptoStore, C: CryptoCache> {
    pub crypto_store: &'a S,
    pub crypto_cache: &'a C,
}

impl<'a, S: CryptoStore, C: CryptoCache> CryptoManager<'a, S, C> {
    pub fn new(crypto_store: &'a S, crypto_cache: &'a C) -> (r: Self)
        ensures
            r.crypto_store == crypto_store,
            r.crypto_cache == crypto_cache,
    {
        CryptoManager { crypto_store, crypto_cache }
    }

    /// The certificate for `server_name`: the cache's where it has one, else
    /// the store's answer, whatever that is.
    pub fn get_certificate(&self, server_name: &str) -> (r: Result<Keycert, Error>)
        ensures
            (r is Ok && self.crypto_cache.answers(server_name@, r))
            || ((exists|e: Error| self.crypto_cache.answers(server_name@, Err(e)))
                && self.crypto_store.answers(server_name@, r)),
    {
        let cached = self.crypto_cache.get_certificate(server_name);
        let ghost seen = cached;
        match after_cache(cached) {
            CacheLookup::Hit(k) => Ok(k),
            CacheLookup::Miss => {
                assert(seen matches Err(e) && self.crypto_cache.answers(server_name@, Err(e)));
                self.crypto_store.get_certificate(server_name)
            },
        }
    }
}

/// The TLS front: serves with the certificates a manager finds.
pub struct Server<'a, S: CryptoStore, C: CryptoCache> {
    pub crypto_manager: &'a CryptoManager<'a, S, C>,
}

impl<'a, S: CryptoStore, C: CryptoCache> Server<'a, S, C> {
    pub fn new(crypto_manager: &'a CryptoManager<'a, S, C>) -> (r: Self)
        ensures
            r.crypto_manager == crypto_manager,
    {
        Server { crypto_manager }
    }
}

/// The protocols a TLS handshake offers, in order of preference: `h2`, then `http/1.1`.
pub fn alpn_protocols() -> (r: Vec<Vec<u8>>)
    ensures
        r@.len() == 2,
        r@[0]@ == seq![104u8, 50u8],
        r@[1]@ == seq![104u8, 116u8, 116u8, 112u8, 47u8, 49u8, 46u8, 49u8],
{
    let h2: Vec<u8> = vec![104u8, 50u8];
    let h11: Vec<u8> = vec![104u8, 116u8, 116u8, 112u8, 47u8, 49u8, 46u8, 49u8];
    vec![h2, h11]
}

/// Why key material cannot serve a handshake.
pub open spec fn tls_material_error(certs: nat, keys: nat) -> Option<Seq<char>> {
    if certs < 1 {
        Some("No certificates found."@)
    } else if keys < 1 {
        Some("No private keys found."@)
    } else {
        None
    }
}

/// Checks that the PEM data held at least one certificate and one private key.
pub fn check_tls_material(certs: usize, keys: usize) -> (r: Result<(), String>)
    ensures
        r is Ok <==> tls_material_error(certs as nat, keys as nat) is None,
        r matches Err(m) ==> tls_material_error(certs as nat, keys as nat) == Some(m@),
{
    if certs < 1 {
        Err(String::from_str("No certificates found."))
    } else if keys < 1 {
        Err(String::from_str("No private keys found."))
    } else {
        Ok(())
    }
}

} // verus!
