//! The message-authentication core: signing and verifying byte payloads
//! under two interchangeable algorithms, with key loading and generation.
//!
//! The symmetric algorithm tags a payload with a keyed hash under a 32-byte
//! shared key; the asymmetric algorithm signs it under an Ed25519 signing
//! key and verifies under the matching public key. Key material shorter than
//! 32 bytes is rejected; longer material is truncated to its first 32 bytes,
//! never padded. Verification is a pure predicate: a well-formed but
//! non-matching signature gives `false`, never an error.

use vstd::prelude::*;
use vstd::string::StringSliceAdditionalSpecFns;

use crate::codec::{b64_url_decoding, decode_bytes, Base64Format};
use crate::error::CryptoError;
use crate::passwd::{password_ok, process_passwd, GenPassOpts};
use crate::strutil::{bytes_eq, str_eq};

verus! {

/// The algorithm selector: a symmetric keyed hash or an asymmetric
/// Ed25519 signature.
#[derive(Clone, Copy, Debug, PartialEq, Eq, Structural)]
pub enum EncryptFormat {
    Blake3,
    Ed25519,
}

/// Parse the name of an algorithm: `"blake3"` or `"ed25519"`.
pub fn parse_format(format: &str) -> (r: Result<EncryptFormat, &'static str>)
    ensures
        format@ == "blake3"@ ==> r == Ok::<EncryptFormat, &'static str>(EncryptFormat::Blake3),
        format@ == "ed25519"@ ==> r == Ok::<EncryptFormat, &'static str>(EncryptFormat::Ed25519),
        format@ != "blake3"@ && format@ != "ed25519"@ ==> (r matches Err(e) && e@
            == "Invalid format."@),
{
    proof {
        reveal_strlit("blake3");
        reveal_strlit("ed25519");
        assert("blake3"@.len() == 6);
        assert("ed25519"@.len() == 7);
    }
    if str_eq(format, "blake3") {
        Ok(EncryptFormat::Blake3)
    } else if str_eq(format, "ed25519") {
        Ok(EncryptFormat::Ed25519)
    } else {
        Err("Invalid format.")
    }
}

/// What blake3's keyed hash digests a message to under a 32-byte key.
pub uninterp spec fn keyed_digest(key: Seq<u8>, msg: Seq<u8>) -> Seq<u8>;

/// What Ed25519 signing produces for a message under a 32-byte seed.
pub uninterp spec fn ed_signature(seed: Seq<u8>, msg: Seq<u8>) -> Seq<u8>;

/// The Ed25519 public key derived from a 32-byte seed.
pub uninterp spec fn ed_pk_of(seed: Seq<u8>) -> Seq<u8>;

/// Whether 32 bytes are a valid Ed25519 public-key encoding.
pub uninterp spec fn ed_pk_valid(pk: Seq<u8>) -> bool;

/// Whether Ed25519 verification accepts a signature for a message under a
/// public key.
pub uninterp spec fn ed_verifies(pk: Seq<u8>, msg: Seq<u8>, sig: Seq<u8>) -> bool;

/// Whether the symmetric verifier accepts `sig` as the tag of `msg` under
/// `key`: it recomputes the keyed digest and compares byte for byte.
pub open spec fn symmetric_accepts(key: Seq<u8>, msg: Seq<u8>, sig: Seq<u8>) -> bool {
    sig == keyed_digest(key, msg)
}

/// Relies on blake3's `keyed_hash`: a pure function of key and message that
/// returns a 32-byte keyed digest.
#[verifier::external_body]
fn blake3_keyed_hash(key: &[u8], msg: &[u8]) -> (r: Vec<u8>)
    requires
        key@.len() == 32,
    ensures
        r@ == keyed_digest(key@, msg@),
        r@.len() == 32,
{
    let key32: &[u8; 32] = key.try_into().unwrap();
    blake3::keyed_hash(key32, msg).as_bytes().to_vec()
}

/// Relies on ed25519-dalek's `SigningKey::sign`: Ed25519 signing (RFC 8032)
/// is a deterministic function of seed and message; the 64-byte signature
/// verifies under the seed's own public key.
#[verifier::external_body]
fn ed_sign(seed: &[u8], msg: &[u8]) -> (r: Vec<u8>)
    requires
        seed@.len() == 32,
    ensures
        r@ == ed_signature(seed@, msg@),
        r@.len() == 64,
        ed_verifies(ed_pk_of(seed@), msg@, r@),
{
    let seed32: &[u8; 32] = seed.try_into().unwrap();
    let sk = ed25519_dalek::SigningKey::from_bytes(seed32);
    ed25519_dalek::Signer::sign(&sk, msg).to_bytes().to_vec()
}

/// Relies on ed25519-dalek's `SigningKey::verifying_key`: the public key is
/// a deterministic 32-byte function of the seed, and a valid encoding (it
/// round-trips through `VerifyingKey::from_bytes`).
#[verifier::external_body]
fn ed_derive_pk(seed: &[u8]) -> (r: Vec<u8>)
    requires
        seed@.len() == 32,
    ensures
        r@ == ed_pk_of(seed@),
        r@.len() == 32,
        ed_pk_valid(r@),
{
    let seed32: &[u8; 32] = seed.try_into().unwrap();
    let sk = ed25519_dalek::SigningKey::from_bytes(seed32);
    sk.verifying_key().to_bytes().to_vec()
}

/// Relies on ed25519-dalek's `VerifyingKey::from_bytes`: it succeeds exactly
/// when the bytes decompress to a curve point.
#[verifier::external_body]
fn ed_check_pk(pk: &[u8]) -> (r: bool)
    requires
        pk@.len() == 32,
    ensures
        r == ed_pk_valid(pk@),
{
    let pk32: &[u8; 32] = pk.try_into().unwrap();
    ed25519_dalek::VerifyingKey::from_bytes(pk32).is_ok()
}

/// Relies on ed25519-dalek's `VerifyingKey::verify`: a deterministic
/// predicate of public key, message and signature.
#[verifier::external_body]
fn ed_verify(pk: &[u8], msg: &[u8], sig: &[u8]) -> (r: bool)
    requires
        pk@.len() == 32,
        ed_pk_valid(pk@),
        sig@.len() == 64,
    ensures
        r == ed_verifies(pk@, msg@, sig@),
{
    let pk32: &[u8; 32] = pk.try_into().unwrap();
    let vk = ed25519_dalek::VerifyingKey::from_bytes(pk32).unwrap();
    let sig64: &[u8; 64] = sig.try_into().unwrap();
    let s = ed25519_dalek::Signature::from_bytes(sig64);
    ed25519_dalek::Verifier::verify(&vk, msg, &s).is_ok()
}

/// Relies on ed25519-dalek's `SigningKey::generate` over rand's `OsRng`: a
/// fresh 32-byte seed from the operating system's secure random source.
#[verifier::external_body]
fn generate_signing_seed() -> (r: Vec<u8>)
    ensures
        r@.len() == 32,
{
    let sk = ed25519_dalek::SigningKey::generate(&mut rand::rngs::OsRng);
    sk.to_bytes().to_vec()
}

/// The first 32 bytes of `key` as an owned vector.
fn take32(key: &[u8]) -> (r: Vec<u8>)
    requires
        key@.len() >= 32,
    ensures
        r@ == key@.take(32),
{
    let mut r: Vec<u8> = Vec::new();
    let mut i: usize = 0;
    while i < 32
        invariant
            i <= 32,
            key@.len() >= 32,
            r@ == key@.take(i as int),
        decreases 32 - i,
    {
        r.push(key[i]);
        proof {
            assert(key@.take(i + 1 as int) =~= key@.take(i as int).push(key@[i as int]));
        }
        i += 1;
    }
    r
}

/// An authenticator that can produce a signature (or tag) for a payload.
pub trait Encryptor: View<V = Seq<u8>> {
    /// The signature this authenticator produces for the message bytes.
    spec fn signature_spec(&self, msg: Seq<u8>) -> Seq<u8>;

    /// The fixed byte length of every signature this authenticator produces.
    spec fn signature_len(&self) -> int;

    /// Whether the verifier holding the matching key material accepts `sig`
    /// for `msg`.
    spec fn matching_key_accepts(&self, msg: Seq<u8>, sig: Seq<u8>) -> bool;

    /// Sign the UTF-8 bytes of `content`. Signing is deterministic and
    /// always succeeds; the result is accepted by the matching verifier.
    fn encrypt(&self, content: &str) -> (r: Result<Vec<u8>, CryptoError>)
        ensures
            r is Ok,
            r matches Ok(sig) ==> sig@ == self.signature_spec(content.spec_bytes())
                && sig@.len() == self.signature_len()
                && self.matching_key_accepts(content.spec_bytes(), sig@),
    ;
}

/// An authenticator that can check a signature (or tag) against a payload.
pub trait Decryptor: View<V = Seq<u8>> {
    /// Whether `sig` has a shape this verifier can check at all.
    spec fn sig_wellformed(&self, sig: Seq<u8>) -> bool;

    /// Whether this verifier accepts `sig` for the message bytes.
    spec fn accepts(&self, msg: Seq<u8>, sig: Seq<u8>) -> bool;

    /// Check `sig` against the UTF-8 bytes of `content`. A well-formed but
    /// non-matching signature gives `Ok(false)`; only a structurally invalid
    /// signature is an error.
    fn decrypt(&self, content: &str, sig: &[u8]) -> (r: Result<bool, CryptoError>)
        ensures
            r is Ok <==> self.sig_wellformed(sig@),
            r matches Ok(b) ==> b == self.accepts(content.spec_bytes(), sig@),
            r matches Err(e) ==> e == CryptoError::EncodingError,
    ;
}

/// Construction of an authenticator from raw key material.
pub trait KeyLoader: View<V = Seq<u8>> + Sized {
    /// Whether `key` is acceptable key material for this algorithm.
    spec fn key_acceptable(key: Seq<u8>) -> bool;

    /// The error reported for unacceptable key material.
    spec fn load_error(key: Seq<u8>) -> CryptoError;

    /// Build the authenticator from the first 32 bytes of `key`; key
    /// material shorter than 32 bytes is rejected, never padded.
    fn load(key: &[u8]) -> (r: Result<Self, CryptoError>)
        ensures
            r is Ok <==> Self::key_acceptable(key@),
            r matches Ok(k) ==> k@ == key@.take(32),
            r matches Err(e) ==> e == Self::load_error(key@),
    ;
}

/// Generation of fresh key material.
pub trait KeyGenerator {
    /// What the generated buffers promise.
    spec fn generated_ok(out: Seq<Vec<u8>>) -> bool;

    /// Generate fresh key material; the buffers are returned to the caller,
    /// nothing is persisted.
    fn generate_key() -> (r: Result<Vec<Vec<u8>>, CryptoError>)
        ensures
            r is Ok,
            r matches Ok(v) ==> Self::generated_ok(v@),
    ;
}

/// The symmetric authenticator: a 32-byte key for blake3's keyed hash.
#[derive(Debug)]
pub struct Blake3 {
    key: Vec<u8>,
}

impl View for Blake3 {
    type V = Seq<u8>;

    closed spec fn view(&self) -> Seq<u8> {
        self.key@
    }
}

impl Blake3 {
    #[verifier::type_invariant]
    spec fn wf(&self) -> bool {
        self.key@.len() == 32
    }

    /// Wrap an exact 32-byte key.
    pub fn new(key: [u8; 32]) -> (r: Self)
        ensures
            r@ == key@,
    {
        Self { key: vstd::slice::slice_to_vec(key.as_slice()) }
    }

    /// Build from raw key material: at least 32 bytes, truncated to the
    /// first 32.
    pub fn load_key(key: &[u8]) -> (r: Result<Self, CryptoError>)
        ensures
            r is Ok <==> key@.len() >= 32,
            r matches Ok(k) ==> k@ == key@.take(32),
            r matches Err(e) ==> e == CryptoError::KeyError,
    {
        if key.len() < 32 {
            return Err(CryptoError::KeyError);
        }
        Ok(Self { key: take32(key) })
    }

    /// Build from a key string: its UTF-8 bytes are the key material.
    pub fn try_new(key: &str) -> (r: Result<Self, CryptoError>)
        ensures
            r is Ok <==> key.spec_bytes().len() >= 32,
            r matches Ok(k) ==> k@ == key.spec_bytes().take(32),
            r matches Err(e) ==> e == CryptoError::KeyError,
    {
        Self::load_key(key.as_bytes())
    }
}

impl KeyLoader for Blake3 {
    open spec fn key_acceptable(key: Seq<u8>) -> bool {
        key.len() >= 32
    }

    open spec fn load_error(key: Seq<u8>) -> CryptoError {
        CryptoError::KeyError
    }

    fn load(key: &[u8]) -> (r: Result<Self, CryptoError>) {
        Self::load_key(key)
    }
}

impl Encryptor for Blake3 {
    open spec fn signature_spec(&self, msg: Seq<u8>) -> Seq<u8> {
        keyed_digest(self@, msg)
    }

    open spec fn signature_len(&self) -> int {
        32
    }

    open spec fn matching_key_accepts(&self, msg: Seq<u8>, sig: Seq<u8>) -> bool {
        symmetric_accepts(self@, msg, sig)
    }

    fn encrypt(&self, content: &str) -> (r: Result<Vec<u8>, CryptoError>) {
        proof {
            use_type_invariant(self);
        }
        Ok(blake3_keyed_hash(self.key.as_slice(), content.as_bytes()))
    }
}

impl Decryptor for Blake3 {
    open spec fn sig_wellformed(&self, sig: Seq<u8>) -> bool {
        true
    }

    open spec fn accepts(&self, msg: Seq<u8>, sig: Seq<u8>) -> bool {
        symmetric_accepts(self@, msg, sig)
    }

    fn decrypt(&self, content: &str, sig: &[u8]) -> (r: Result<bool, CryptoError>) {
        proof {
            use_type_invariant(self);
        }
        let tag = blake3_keyed_hash(self.key.as_slice(), content.as_bytes());
        Ok(bytes_eq(tag.as_slice(), sig))
    }
}

impl KeyGenerator for Blake3 {
    open spec fn generated_ok(out: Seq<Vec<u8>>) -> bool {
        out.len() == 1 && password_ok(out[0]@, 32, true, true, true, true)
    }

    fn generate_key() -> (r: Result<Vec<Vec<u8>>, CryptoError>) {
        let password_opts = GenPassOpts {
            length: 32,
            uppercase: true,
            lowercase: true,
            number: true,
            symbol: true,
        };

        match process_passwd(
            password_opts.length,
            password_opts.uppercase,
            password_opts.lowercase,
            password_opts.number,
            password_opts.symbol,
        ) {
            Ok(key) => {
                let mut out: Vec<Vec<u8>> = Vec::new();
                out.push(key);
                Ok(out)
            },
            Err(_) => Err(CryptoError::KeyError),
        }
    }
}

/// The asymmetric signer: a 32-byte Ed25519 seed, materialized into a
/// signing key at each use. The seed never leaves the signer.
pub struct Ed25519 {
    seed: Vec<u8>,
}

impl View for Ed25519 {
    type V = Seq<u8>;

    closed spec fn view(&self) -> Seq<u8> {
        self.seed@
    }
}

impl Ed25519 {
    #[verifier::type_invariant]
    spec fn wf(&self) -> bool {
        self.seed@.len() == 32
    }

    /// Wrap an exact 32-byte seed.
    pub fn new(seed: [u8; 32]) -> (r: Self)
        ensures
            r@ == seed@,
    {
        Self { seed: vstd::slice::slice_to_vec(seed.as_slice()) }
    }

    /// Build from raw key material: the first 32 bytes become the seed.
    pub fn load_key(key: &[u8]) -> (r: Result<Self, CryptoError>)
        ensures
            r is Ok <==> key@.len() >= 32,
            r matches Ok(k) ==> k@ == key@.take(32),
            r matches Err(e) ==> e == CryptoError::KeyError,
    {
        if key.len() < 32 {
            return Err(CryptoError::KeyError);
        }
        Ok(Self { seed: take32(key) })
    }

    /// Build from a key string: its UTF-8 bytes are the key material.
    pub fn try_new(key: &str) -> (r: Result<Self, CryptoError>)
        ensures
            r is Ok <==> key.spec_bytes().len() >= 32,
            r matches Ok(k) ==> k@ == key.spec_bytes().take(32),
            r matches Err(e) ==> e == CryptoError::KeyError,
    {
        Self::load_key(key.as_bytes())
    }

    /// The public key derived from this signer's seed.
    pub fn verifying_key(&self) -> (r: Vec<u8>)
        ensures
            r@ == ed_pk_of(self@),
            r@.len() == 32,
            ed_pk_valid(r@),
    {
        proof {
            use_type_invariant(self);
        }
        ed_derive_pk(self.seed.as_slice())
    }
}

impl KeyLoader for Ed25519 {
    open spec fn key_acceptable(key: Seq<u8>) -> bool {
        key.len() >= 32
    }

    open spec fn load_error(key: Seq<u8>) -> CryptoError {
        CryptoError::KeyError
    }

    fn load(key: &[u8]) -> (r: Result<Self, CryptoError>) {
        Self::load_key(key)
    }
}

impl Encryptor for Ed25519 {
    open spec fn signature_spec(&self, msg: Seq<u8>) -> Seq<u8> {
        ed_signature(self@, msg)
    }

    open spec fn signature_len(&self) -> int {
        64
    }

    open spec fn matching_key_accepts(&self, msg: Seq<u8>, sig: Seq<u8>) -> bool {
        ed_verifies(ed_pk_of(self@), msg, sig)
    }

    fn encrypt(&self, content: &str) -> (r: Result<Vec<u8>, CryptoError>) {
        proof {
            use_type_invariant(self);
        }
        Ok(ed_sign(self.seed.as_slice(), content.as_bytes()))
    }
}

impl Decryptor for Ed25519 {
    open spec fn sig_wellformed(&self, sig: Seq<u8>) -> bool {
        sig.len() == 64
    }

    open spec fn accepts(&self, msg: Seq<u8>, sig: Seq<u8>) -> bool {
        ed_verifies(ed_pk_of(self@), msg, sig)
    }

    fn decrypt(&self, content: &str, sig: &[u8]) -> (r: Result<bool, CryptoError>) {
        proof {
            use_type_invariant(self);
        }
        if sig.len() != 64 {
            return Err(CryptoError::EncodingError);
        }
        let pk = ed_derive_pk(self.seed.as_slice());
        Ok(ed_verify(pk.as_slice(), content.as_bytes(), sig))
    }
}

impl KeyGenerator for Ed25519 {
    open spec fn generated_ok(out: Seq<Vec<u8>>) -> bool {
        &&& out.len() == 2
        &&& out[0]@.len() == 32
        &&& out[1]@ == ed_pk_of(out[0]@)
        &&& ed_pk_valid(out[1]@)
    }

    fn generate_key() -> (r: Result<Vec<Vec<u8>>, CryptoError>) {
        let seed = generate_signing_seed();
        let pk = ed_derive_pk(seed.as_slice());
        let mut out: Vec<Vec<u8>> = Vec::new();
        out.push(seed);
        out.push(pk);
        Ok(out)
    }
}

/// The asymmetric verifier: a 32-byte Ed25519 public key. It has no signing
/// capability; a verifier cannot be asked to sign.
pub struct Ed25519Verifier {
    pk: Vec<u8>,
}

impl View for Ed25519Verifier {
    type V = Seq<u8>;

    closed spec fn view(&self) -> Seq<u8> {
        self.pk@
    }
}

impl Ed25519Verifier {
    #[verifier::type_invariant]
    spec fn wf(&self) -> bool {
        self.pk@.len() == 32 && ed_pk_valid(self.pk@)
    }

    /// Wrap an exact 32-byte public key that is a valid encoding.
    pub fn new(pk: Vec<u8>) -> (r: Self)
        requires
            pk@.len() == 32,
            ed_pk_valid(pk@),
        ensures
            r@ == pk@,
    {
        Self { pk }
    }

    /// Build from raw key material: the first 32 bytes must be a valid
    /// Ed25519 public-key encoding.
    pub fn load_key(key: &[u8]) -> (r: Result<Self, CryptoError>)
        ensures
            r is Ok <==> key@.len() >= 32 && ed_pk_valid(key@.take(32)),
            r matches Ok(k) ==> k@ == key@.take(32),
            r matches Err(e) ==> e == (if key@.len() < 32 {
                CryptoError::KeyError
            } else {
                CryptoError::EncodingError
            }),
    {
        if key.len() < 32 {
            return Err(CryptoError::KeyError);
        }
        let pk = take32(key);
        if !ed_check_pk(pk.as_slice()) {
            return Err(CryptoError::EncodingError);
        }
        Ok(Self::new(pk))
    }

    /// Build from a key string: its UTF-8 bytes are the key material.
    pub fn try_new(key: &str) -> (r: Result<Self, CryptoError>)
        ensures
            r is Ok <==> key.spec_bytes().len() >= 32 && ed_pk_valid(key.spec_bytes().take(32)),
            r matches Ok(k) ==> k@ == key.spec_bytes().take(32),
            r matches Err(e) ==> e == (if key.spec_bytes().len() < 32 {
                CryptoError::KeyError
            } else {
                CryptoError::EncodingError
            }),
    {
        Self::load_key(key.as_bytes())
    }
}

impl KeyLoader for Ed25519Verifier {
    open spec fn key_acceptable(key: Seq<u8>) -> bool {
        key.len() >= 32 && ed_pk_valid(key.take(32))
    }

    open spec fn load_error(key: Seq<u8>) -> CryptoError {
        if key.len() < 32 {
            CryptoError::KeyError
        } else {
            CryptoError::EncodingError
        }
    }

    fn load(key: &[u8]) -> (r: Result<Self, CryptoError>) {
        Self::load_key(key)
    }
}

impl Decryptor for Ed25519Verifier {
    open spec fn sig_wellformed(&self, sig: Seq<u8>) -> bool {
        sig.len() == 64
    }

    open spec fn accepts(&self, msg: Seq<u8>, sig: Seq<u8>) -> bool {
        ed_verifies(self@, msg, sig)
    }

    fn decrypt(&self, content: &str, sig: &[u8]) -> (r: Result<bool, CryptoError>) {
        proof {
            use_type_invariant(self);
        }
        if sig.len() != 64 {
            return Err(CryptoError::EncodingError);
        }
        Ok(ed_verify(self.pk.as_slice(), content.as_bytes(), sig))
    }
}

/// The signature produced for `msg` under the chosen algorithm and the first
/// 32 bytes of `key`.
pub open spec fn spec_sign(format: EncryptFormat, key: Seq<u8>, msg: Seq<u8>) -> Seq<u8> {
    match format {
        EncryptFormat::Blake3 => keyed_digest(key.take(32), msg),
        EncryptFormat::Ed25519 => ed_signature(key.take(32), msg),
    }
}

/// The exact outcome of `process_decrypt`: the base64 signature text is
/// decoded, the verifier is built from `key`, and the signature is checked.
pub open spec fn spec_verify_outcome(
    format: EncryptFormat,
    key: Seq<u8>,
    msg: Seq<u8>,
    sig_text: Seq<u8>,
) -> Result<bool, CryptoError> {
    match b64_url_decoding(sig_text) {
        None => Err(CryptoError::EncodingError),
        Some(sig) => if key.len() < 32 {
            Err(CryptoError::KeyError)
        } else {
            match format {
                EncryptFormat::Blake3 => Ok(symmetric_accepts(key.take(32), msg, sig)),
                EncryptFormat::Ed25519 => if !ed_pk_valid(key.take(32)) {
                    Err(CryptoError::EncodingError)
                } else if sig.len() != 64 {
                    Err(CryptoError::EncodingError)
                } else {
                    Ok(ed_verifies(key.take(32), msg, sig))
                },
            }
        },
    }
}

/// Sign the UTF-8 bytes of `content` under the chosen algorithm, with the
/// UTF-8 bytes of `key` as key material.
pub fn process_encrypt(content: &str, format: &EncryptFormat, key: &str) -> (r: Result<
    Vec<u8>,
    CryptoError,
>)
    ensures
        r is Ok <==> key.spec_bytes().len() >= 32,
        r matches Ok(sig) ==> sig@ == spec_sign(*format, key.spec_bytes(), content.spec_bytes()),
        r matches Err(e) ==> e == CryptoError::KeyError,
{
    match format {
        EncryptFormat::Blake3 => {
            let signer = Blake3::try_new(key)?;
            signer.encrypt(content)
        },
        EncryptFormat::Ed25519 => {
            let signer = Ed25519::try_new(key)?;
            signer.encrypt(content)
        },
    }
}

/// Check a URL-safe base64 signature against the UTF-8 bytes of `content`
/// under the chosen algorithm. `Ok(false)` is a legitimate mismatch, never
/// an error.
pub fn process_decrypt(content: &str, format: &EncryptFormat, key: &str, sig: &str) -> (r: Result<
    bool,
    CryptoError,
>)
    ensures
        r == spec_verify_outcome(
            *format,
            key.spec_bytes(),
            content.spec_bytes(),
            sig.spec_bytes(),
        ),
{
    let sig_bytes = decode_bytes(sig, &Base64Format::UrlSafe)?;
    match format {
        EncryptFormat::Blake3 => {
            let verifier = Blake3::try_new(key)?;
            verifier.decrypt(content, sig_bytes.as_slice())
        },
        EncryptFormat::Ed25519 => {
            let verifier = Ed25519Verifier::try_new(key)?;
            verifier.decrypt(content, sig_bytes.as_slice())
        },
    }
}

/// Generate fresh key material for the chosen algorithm: one printable
/// 32-byte key for the symmetric algorithm; a 32-byte seed and its derived
/// public key for the asymmetric one.
pub fn process_generate(format: &EncryptFormat) -> (r: Result<Vec<Vec<u8>>, CryptoError>)
    ensures
        r is Ok,
        r matches Ok(v) ==> match *format {
            EncryptFormat::Blake3 => <Blake3 as KeyGenerator>::generated_ok(v@),
            EncryptFormat::Ed25519 => <Ed25519 as KeyGenerator>::generated_ok(v@),
        },
{
    match format {
        EncryptFormat::Blake3 => Blake3::generate_key(),
        EncryptFormat::Ed25519 => Ed25519::generate_key(),
    }
}

/// A tag just produced under a symmetric key is accepted when verified
/// under the same key: verification recomputes the keyed digest of the
/// payload and compares, so the round trip holds for every key and payload.
pub proof fn lemma_symmetric_round_trip(key: Seq<u8>, msg: Seq<u8>)
    ensures
        symmetric_accepts(key, msg, keyed_digest(key, msg)),
{
}

/// A tag produced under one symmetric key is rejected under a different
/// key, as long as the two keys give the payload different digests (for a
/// keyed cryptographic hash, colliding digests under distinct keys are not
/// ruled out by its contract, only overwhelmingly improbable).
pub proof fn lemma_mismatched_key_rejected(key: Seq<u8>, other: Seq<u8>, msg: Seq<u8>)
    requires
        other != key,
        keyed_digest(other, msg) != keyed_digest(key, msg),
    ensures
        !symmetric_accepts(other, msg, keyed_digest(key, msg)),
{
}

/// Key derivation and signing are deterministic functions of the seed: the
/// same seed always yields the same public key and the same signatures.
pub proof fn lemma_key_derivation_deterministic(seed1: Seq<u8>, seed2: Seq<u8>)
    requires
        seed1 == seed2,
    ensures
        ed_pk_of(seed1) == ed_pk_of(seed2),
        forall|msg: Seq<u8>| #[trigger] ed_signature(seed1, msg) == ed_signature(seed2, msg),
{
}

} // verus!
