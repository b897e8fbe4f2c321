//! Cryptographic structures and functions.

use crate::error::Error;
use crate::error::ErrorView;
use crate::hex::decode_hex;
use crate::hex::hex_to_bytes;
use crate::hex::is_hex_lower;
use crate::rsa::from_pkcs1;
use crate::rsa::from_spki;
use crate::rsa::is_pkcs1;
use crate::rsa::pkcs1_is_short;
use crate::rsa::spki_key;
use crate::table::Content;
use crate::table::Label;
use vstd::prelude::*;
use vstd::slice::slice_to_vec;
use vstd::string::StringSliceAdditionalSpecFns;

verus! {

/// The SHA-256 digest of `data`.
pub uninterp spec fn sha256_digest(data: Seq<u8>) -> Seq<u8>;

/// Whether `sig` is a signature of `msg` under `scheme` that the public key
/// `key` accepts.
pub uninterp spec fn signature_valid(
    scheme: SignatureScheme,
    key: Seq<u8>,
    msg: Seq<u8>,
    sig: Seq<u8>,
) -> bool;

/// Longest input, in octets, that a digest can be taken of.
pub open spec fn digest_limit() -> nat {
    0x2000_0000_0000_0000
}

/// Hashes with `ring::digest::digest` and `SHA256`. The digest depends on
/// the data alone and is 32 octets long. The call panics when the length in
/// bits does not fit in 64 bits, which `requires` leaves out.
#[verifier::external_body]
fn sha256(data: &[u8]) -> (r: Vec<u8>)
    requires
        data@.len() < digest_limit(),
    ensures
        r@ == sha256_digest(data@),
        r@.len() == 32,
{
    ring::digest::digest(&ring::digest::SHA256, data).as_ref().to_vec()
}

/// Verifies with `ring::signature::UnparsedPublicKey::verify`, under
/// `ED25519`, `RSA_PSS_2048_8192_SHA256` or `RSA_PSS_2048_8192_SHA512`. The
/// answer depends on the scheme, the key, the message and the signature
/// alone; a key that cannot be parsed verifies nothing.
#[verifier::external_body]
fn ring_verify(scheme: &SignatureScheme, key: &[u8], msg: &[u8], sig: &[u8]) -> (r: bool)
    ensures
        r == signature_valid(*scheme, key@, msg@, sig@),
{
    let alg: &'static dyn ring::signature::VerificationAlgorithm = match scheme {
        SignatureScheme::Ed25519 => &ring::signature::ED25519,
        SignatureScheme::RsaSsaPssSha256 => &ring::signature::RSA_PSS_2048_8192_SHA256,
        SignatureScheme::RsaSsaPssSha512 => &ring::signature::RSA_PSS_2048_8192_SHA512,
    };
    ring::signature::UnparsedPublicKey::new(alg, key).verify(msg, sig).is_ok()
}

/// Whether two byte strings hold the same octets.
pub fn bytes_equal(a: &[u8], b: &[u8]) -> (r: bool)
    ensures
        r == (a@ == b@),
{
    if a.len() != b.len() {
        return false;
    }
    let mut i: usize = 0;
    while i < a.len()
        invariant
            a@.len() == b@.len(),
            i <= a@.len(),
            forall|j: int| 0 <= j < i ==> a@[j] == b@[j],
        decreases a@.len() - i,
    {
        if a[i] != b[i] {
            return false;
        }
        i += 1;
    }
    assert(a@ =~= b@);
    true
}

/// Decodes lower-case hexadecimal text.
fn bytes_from_hex(string: &str) -> (r: Result<Vec<u8>, Error>)
    ensures
        match r {
            Ok(bytes) => is_hex_lower(string@) && bytes@ == hex_to_bytes(string@),
            Err(e) => !(is_hex_lower(string@) && string.spec_bytes().len() <= usize::MAX / 8)
                && e@ == ErrorView::Decode(hex_error_text()),
        },
{
    if string.as_bytes().len() > usize::MAX / 8 {
        return Err(Error::decode("not lower-case hexadecimal"));
    }
    match decode_hex(string) {
        Ok(bytes) => Ok(bytes),
        Err(_) => Err(Error::decode("not lower-case hexadecimal")),
    }
}

/// What the error says when text is not lower-case hexadecimal.
pub open spec fn hex_error_text() -> Seq<char> {
    "not lower-case hexadecimal"@
}

/// Calculate the given key's ID: the SHA-256 digest of the key's bytes.
pub fn calculate_key_id(public_key: &PublicKeyValue) -> (id: KeyId)
    requires
        public_key@.len() < digest_limit(),
    ensures
        id@ == sha256_digest(public_key@),
        id@.len() == 32,
{
    KeyId(sha256(public_key.0.as_slice()))
}

/// Wrapper type for public key's ID.
#[derive(Debug, PartialEq, Eq, Hash, PartialOrd, Ord)]
pub struct KeyId(Vec<u8>);

impl View for KeyId {
    type V = Seq<u8>;

    closed spec fn view(&self) -> Seq<u8> {
        self.0@
    }
}

impl Clone for KeyId {
    fn clone(&self) -> (r: Self)
        ensures
            r@ == self@,
    {
        KeyId(slice_to_vec(self.0.as_slice()))
    }
}

impl Content for KeyId {
    fn duplicate(&self) -> (r: Self) {
        self.clone()
    }
}

impl Label for KeyId {
    fn same(&self, other: &Self) -> (r: bool) {
        bytes_equal(self.0.as_slice(), other.0.as_slice())
    }
}

impl KeyId {
    /// A key ID of the given bytes.
    pub fn new(bytes: Vec<u8>) -> (id: KeyId)
        ensures
            id@ == bytes@,
    {
        KeyId(bytes)
    }

    /// Parse a key ID from its lower-case hexadecimal text.
    pub fn from_string(string: &str) -> (r: Result<KeyId, Error>)
        ensures
            match r {
                Ok(id) => is_hex_lower(string@) && id@ == hex_to_bytes(string@),
                Err(e) => !(is_hex_lower(string@) && string.spec_bytes().len() <= usize::MAX
                    / 8) && e@ == ErrorView::Decode(hex_error_text()),
            },
    {
        match bytes_from_hex(string) {
            Ok(bytes) => Ok(KeyId(bytes)),
            Err(e) => Err(e),
        }
    }

    /// The bytes of the ID.
    pub fn value(&self) -> (r: &[u8])
        ensures
            r@ == self@,
    {
        self.0.as_slice()
    }
}

/// Cryptographic signature schemes.
#[derive(Clone, Copy, Debug, PartialEq, Eq, Structural)]
pub enum SignatureScheme {
    /// Ed25519
    Ed25519,
    /// RSASSA-PSS calculated over SHA256
    RsaSsaPssSha256,
    /// RSASSA-PSS calculated over SHA512
    RsaSsaPssSha512,
}

impl SignatureScheme {
    /// The name of the scheme in serialized metadata.
    pub open spec fn name(self) -> Seq<char> {
        match self {
            SignatureScheme::Ed25519 => "ed25519"@,
            SignatureScheme::RsaSsaPssSha256 => "rsassa-pss-sha256"@,
            SignatureScheme::RsaSsaPssSha512 => "rsassa-pss-sha512"@,
        }
    }

    /// The scheme that `s` names, if it names one.
    pub open spec fn named(s: Seq<char>) -> Option<SignatureScheme> {
        if s == "ed25519"@ {
            Some(SignatureScheme::Ed25519)
        } else if s == "rsassa-pss-sha256"@ {
            Some(SignatureScheme::RsaSsaPssSha256)
        } else if s == "rsassa-pss-sha512"@ {
            Some(SignatureScheme::RsaSsaPssSha512)
        } else {
            None
        }
    }

    /// Each scheme is the one that its own name names.
    pub proof fn name_round_trip(self)
        ensures
            Self::named(self.name()) == Some(self),
    {
        reveal_strlit("ed25519");
        reveal_strlit("rsassa-pss-sha256");
        reveal_strlit("rsassa-pss-sha512");
        assert("ed25519"@.len() == 7);
        assert("rsassa-pss-sha256"@.len() == 17);
        assert("rsassa-pss-sha512"@.len() == 17);
        assert("rsassa-pss-sha256"@[14] == '2');
        assert("rsassa-pss-sha512"@[14] == '5');
    }

    /// The name of the scheme in serialized metadata.
    pub fn to_string(&self) -> (s: String)
        ensures
            s@ == self.name(),
    {
        match self {
            SignatureScheme::Ed25519 => String::from_str("ed25519"),
            SignatureScheme::RsaSsaPssSha256 => String::from_str("rsassa-pss-sha256"),
            SignatureScheme::RsaSsaPssSha512 => String::from_str("rsassa-pss-sha512"),
        }
    }

    /// The scheme of the given name.
    pub fn from_str(s: &str) -> (r: Result<SignatureScheme, Error>)
        ensures
            match r {
                Ok(scheme) => Self::named(s@) == Some(scheme),
                Err(e) => Self::named(s@) is None && e@ == ErrorView::UnsupportedSignatureScheme(
                    s@,
                ),
            },
    {
        let text = String::from_str(s);
        if text == String::from_str("ed25519") {
            Ok(SignatureScheme::Ed25519)
        } else if text == String::from_str("rsassa-pss-sha256") {
            Ok(SignatureScheme::RsaSsaPssSha256)
        } else if text == String::from_str("rsassa-pss-sha512") {
            Ok(SignatureScheme::RsaSsaPssSha512)
        } else {
            Err(Error::UnsupportedSignatureScheme(text))
        }
    }
}

/// Wrapper type for the value of a cryptographic signature.
#[derive(Debug, PartialEq, Eq)]
pub struct SignatureValue(Vec<u8>);

impl View for SignatureValue {
    type V = Seq<u8>;

    closed spec fn view(&self) -> Seq<u8> {
        self.0@
    }
}

impl Clone for SignatureValue {
    fn clone(&self) -> (r: Self)
        ensures
            r@ == self@,
    {
        SignatureValue(slice_to_vec(self.0.as_slice()))
    }
}

impl SignatureValue {
    /// Create a new `SignatureValue` from the given bytes.
    pub fn new(bytes: Vec<u8>) -> (r: SignatureValue)
        ensures
            r@ == bytes@,
    {
        SignatureValue(bytes)
    }

    /// Create a new `SignatureValue` from the given hex-lower string.
    pub fn from_string(string: &str) -> (r: Result<SignatureValue, Error>)
        ensures
            match r {
                Ok(v) => is_hex_lower(string@) && v@ == hex_to_bytes(string@),
                Err(e) => !(is_hex_lower(string@) && string.spec_bytes().len() <= usize::MAX
                    / 8) && e@ == ErrorView::Decode(hex_error_text()),
            },
    {
        match bytes_from_hex(string) {
            Ok(bytes) => Ok(SignatureValue(bytes)),
            Err(e) => Err(e),
        }
    }

    /// The bytes of the signature.
    pub fn value(&self) -> (r: &[u8])
        ensures
            r@ == self@,
    {
        self.0.as_slice()
    }
}

/// Types of public keys.
#[derive(Clone, Copy, Debug, PartialEq, Eq, Structural)]
pub enum KeyType {
    /// Ed25519
    Ed25519,
    /// RSA
    Rsa,
}

impl KeyType {
    /// The name of the key type in serialized metadata.
    pub open spec fn name(self) -> Seq<char> {
        match self {
            KeyType::Ed25519 => "ed25519"@,
            KeyType::Rsa => "rsa"@,
        }
    }

    /// The key type that `s` names, if it names one.
    pub open spec fn named(s: Seq<char>) -> Option<KeyType> {
        if s == "ed25519"@ {
            Some(KeyType::Ed25519)
        } else if s == "rsa"@ {
            Some(KeyType::Rsa)
        } else {
            None
        }
    }

    /// Each key type is the one that its own name names.
    pub proof fn name_round_trip(self)
        ensures
            Self::named(self.name()) == Some(self),
    {
        reveal_strlit("ed25519");
        reveal_strlit("rsa");
        assert("ed25519"@.len() == 7);
        assert("rsa"@.len() == 3);
    }

    /// The key type of the given name.
    pub fn from_str(s: &str) -> (r: Result<KeyType, Error>)
        ensures
            match r {
                Ok(typ) => Self::named(s@) == Some(typ),
                Err(e) => Self::named(s@) is None && e@ == ErrorView::UnsupportedKeyType(s@),
            },
    {
        let text = String::from_str(s);
        if text == String::from_str("ed25519") {
            Ok(KeyType::Ed25519)
        } else if text == String::from_str("rsa") {
            Ok(KeyType::Rsa)
        } else {
            Err(Error::UnsupportedKeyType(text))
        }
    }

    /// The name of the key type in serialized metadata.
    pub fn to_string(&self) -> (s: String)
        ensures
            s@ == self.name(),
    {
        match self {
            KeyType::Ed25519 => String::from_str("ed25519"),
            KeyType::Rsa => String::from_str("rsa"),
        }
    }
}

/// Possible encoding/decoding formats for a public key.
#[derive(Clone, Copy, Debug, PartialEq, Eq, Structural)]
pub enum KeyFormat {
    /// The key should be read/written as hex-lower bytes.
    HexLower,
    /// The key should be read/written as PKCS#1 PEM.
    Pkcs1,
    /// The key should be read/written as SPKI PEM.
    Spki,
}

/// Wrapper type for a decoded public key.
#[derive(Debug, PartialEq, Eq)]
pub struct PublicKeyValue(Vec<u8>);

impl View for PublicKeyValue {
    type V = Seq<u8>;

    closed spec fn view(&self) -> Seq<u8> {
        self.0@
    }
}

impl Clone for PublicKeyValue {
    fn clone(&self) -> (r: Self)
        ensures
            r@ == self@,
    {
        PublicKeyValue(slice_to_vec(self.0.as_slice()))
    }
}

impl PublicKeyValue {
    /// Create a new `PublicKeyValue` from the given bytes.
    pub fn new(bytes: Vec<u8>) -> (r: PublicKeyValue)
        ensures
            r@ == bytes@,
    {
        PublicKeyValue(bytes)
    }

    /// Create a new `PublicKeyValue` from the given hex-lower string.
    pub fn from_string(string: &str) -> (r: Result<PublicKeyValue, Error>)
        ensures
            match r {
                Ok(v) => is_hex_lower(string@) && v@ == hex_to_bytes(string@),
                Err(e) => !(is_hex_lower(string@) && string.spec_bytes().len() <= usize::MAX
                    / 8) && e@ == ErrorView::Decode(hex_error_text()),
            },
    {
        match bytes_from_hex(string) {
            Ok(bytes) => Ok(PublicKeyValue(bytes)),
            Err(e) => Err(e),
        }
    }

    /// An immutable reference to the public key's bytes.
    pub fn value(&self) -> (r: &[u8])
        ensures
            r@ == self@,
    {
        self.0.as_slice()
    }
}

/// A [`PublicKey`] as contracts see it.
pub ghost struct PublicKeyView {
    pub typ: KeyType,
    pub format: KeyFormat,
    pub key_id: Seq<u8>,
    pub value: Seq<u8>,
}

/// What holds of every public key: its ID is the SHA-256 digest of the bytes
/// it stores, which is 32 bytes long; an Ed25519 key stores 32 bytes, and an
/// RSA key stores a PKCS#1 document.
pub open spec fn valid_key(k: PublicKeyView) -> bool {
    &&& k.key_id == sha256_digest(k.value)
    &&& k.key_id.len() == 32
    &&& match k.typ {
        KeyType::Ed25519 => k.format == KeyFormat::HexLower && k.value.len() == 32,
        KeyType::Rsa => k.format != KeyFormat::HexLower && is_pkcs1(k.value),
    }
}

/// Keys that store the same bytes have the same ID.
pub proof fn key_id_follows_stored_bytes(a: PublicKeyView, b: PublicKeyView)
    requires
        valid_key(a),
        valid_key(b),
        a.value == b.value,
    ensures
        a.key_id == b.key_id,
        a.key_id == sha256_digest(a.value),
{
}

/// The bytes that a key stores read back as the same key: those of an RSA
/// key are a PKCS#1 document that is stored as it is, and those of an
/// Ed25519 key are 32 bytes.
pub proof fn stored_bytes_read_back(k: PublicKeyView)
    requires
        valid_key(k),
    ensures
        k.typ == KeyType::Rsa ==> rsa_stored(k.value, KeyFormat::Pkcs1) == Some(k.value),
        k.typ == KeyType::Ed25519 ==> k.value.len() == 32,
{
}

/// The bytes that are stored for an RSA key given as `bytes` in `format`: the
/// PKCS#1 document itself, or the one inside the SPKI document.
pub open spec fn rsa_stored(bytes: Seq<u8>, format: KeyFormat) -> Option<Seq<u8>> {
    match format {
        KeyFormat::HexLower => None,
        KeyFormat::Pkcs1 => if is_pkcs1(bytes) {
            Some(bytes)
        } else {
            None
        },
        KeyFormat::Spki => spki_key(bytes),
    }
}

/// What the error says when an RSA key given in `format` is refused.
pub open spec fn rsa_error_text(format: KeyFormat) -> Seq<char> {
    match format {
        KeyFormat::HexLower => "RSA keys in format HexLower not supported."@,
        KeyFormat::Pkcs1 => "Key claimed to be PKCS1 but could not be parsed."@,
        KeyFormat::Spki => "Key claimed to be SPKI but could not be parsed."@,
    }
}

/// A structure containing information about a public key.
#[derive(Debug, PartialEq, Eq)]
pub struct PublicKey {
    typ: KeyType,
    format: KeyFormat,
    key_id: KeyId,
    value: PublicKeyValue,
}

impl View for PublicKey {
    type V = PublicKeyView;

    closed spec fn view(&self) -> PublicKeyView {
        PublicKeyView {
            typ: self.typ,
            format: self.format,
            key_id: self.key_id@,
            value: self.value@,
        }
    }
}

impl Clone for PublicKey {
    fn clone(&self) -> (r: Self)
        ensures
            r@ == self@,
    {
        proof {
            use_type_invariant(self);
        }
        PublicKey {
            typ: self.typ,
            format: self.format,
            key_id: self.key_id.clone(),
            value: self.value.clone(),
        }
    }
}

impl Content for PublicKey {
    fn duplicate(&self) -> (r: Self) {
        self.clone()
    }
}

impl PublicKey {
    #[verifier::type_invariant]
    closed spec fn inv(&self) -> bool {
        valid_key(self@)
    }

    /// Create a `PublicKey` from an Ed25519 `PublicKeyValue`, which must be
    /// 32 bytes long.
    pub fn from_ed25519(value: PublicKeyValue) -> (r: Result<PublicKey, Error>)
        ensures
            match r {
                Ok(k) => value@.len() == 32 && valid_key(k@) && k@.value == value@ && k@.typ
                    == KeyType::Ed25519,
                Err(e) => value@.len() != 32 && e@ == ErrorView::IllegalArgument(
                    "Ed25519 public key was not 32 bytes long"@,
                ),
            },
    {
        if value.value().len() != 32 {
            return Err(Error::illegal_argument("Ed25519 public key was not 32 bytes long"));
        }
        Ok(
            PublicKey {
                typ: KeyType::Ed25519,
                format: KeyFormat::HexLower,
                key_id: calculate_key_id(&value),
                value: value,
            },
        )
    }

    /// Create a `PublicKey` from an RSA `PublicKeyValue`, either SPKI or
    /// PKCS#1. The key is stored in PKCS#1 form, and its ID is taken of that
    /// form.
    pub fn from_rsa(value: PublicKeyValue, format: KeyFormat) -> (r: Result<PublicKey, Error>)
        ensures
            match r {
                Ok(k) => rsa_stored(value@, format) == Some(k@.value) && valid_key(k@) && k@.typ
                    == KeyType::Rsa && k@.format == format,
                Err(e) => rsa_stored(value@, format) is None && e@ == ErrorView::IllegalArgument(
                    rsa_error_text(format),
                ),
            },
    {
        let pkcs1_value = match format {
            KeyFormat::Pkcs1 => {
                match from_pkcs1(value.value()) {
                    Some(bytes) => PublicKeyValue(bytes),
                    None => {
                        return Err(
                            Error::illegal_argument(
                                "Key claimed to be PKCS1 but could not be parsed.",
                            ),
                        );
                    },
                }
            },
            KeyFormat::Spki => {
                match from_spki(value.value()) {
                    Some(bytes) => PublicKeyValue(bytes),
                    None => {
                        return Err(
                            Error::illegal_argument(
                                "Key claimed to be SPKI but could not be parsed.",
                            ),
                        );
                    },
                }
            },
            KeyFormat::HexLower => {
                return Err(Error::illegal_argument("RSA keys in format HexLower not supported."));
            },
        };
        proof {
            pkcs1_is_short(pkcs1_value@);
        }
        let key_id = calculate_key_id(&pkcs1_value);
        Ok(PublicKey { typ: KeyType::Rsa, format: format, key_id: key_id, value: pkcs1_value })
    }

    /// An immutable reference to the key's type.
    pub fn typ(&self) -> (r: &KeyType)
        ensures
            *r == self@.typ,
    {
        &self.typ
    }

    /// An immutable reference to the key's format.
    pub fn format(&self) -> (r: &KeyFormat)
        ensures
            *r == self@.format,
    {
        &self.format
    }

    /// An immutable reference to the key's ID, which is the SHA-256 digest of
    /// the key's stored bytes.
    pub fn key_id(&self) -> (r: &KeyId)
        ensures
            r@ == self@.key_id,
            valid_key(self@),
    {
        proof {
            use_type_invariant(self);
        }
        &self.key_id
    }

    /// An immutable reference to the key's public value.
    pub fn value(&self) -> (r: &PublicKeyValue)
        ensures
            r@ == self@.value,
            valid_key(self@),
    {
        proof {
            use_type_invariant(self);
        }
        &self.value
    }

    /// Use this key and the given signature scheme to verify the message
    /// against a signature.
    pub fn verify(&self, scheme: &SignatureScheme, msg: &[u8], sig: &SignatureValue) -> (r: Result<
        (),
        Error,
    >)
        ensures
            r is Ok <==> signature_valid(*scheme, self@.value, msg@, sig@),
            r matches Err(e) ==> e@ == ErrorView::BadSignature,
    {
        if ring_verify(scheme, self.value.value(), msg, sig.value()) {
            Ok(())
        } else {
            Err(Error::BadSignature)
        }
    }
}

/// A [`Signature`] as contracts see it.
pub ghost struct SignatureView {
    pub key_id: Seq<u8>,
    pub scheme: SignatureScheme,
    pub signature: Seq<u8>,
}

/// A structure that contains a `Signature` and associated data for verifying it.
#[derive(Debug, PartialEq, Eq)]
pub struct Signature {
    key_id: KeyId,
    scheme: SignatureScheme,
    signature: SignatureValue,
}

impl View for Signature {
    type V = SignatureView;

    closed spec fn view(&self) -> SignatureView {
        SignatureView { key_id: self.key_id@, scheme: self.scheme, signature: self.signature@ }
    }
}

impl Clone for Signature {
    fn clone(&self) -> (r: Self)
        ensures
            r@ == self@,
    {
        Signature {
            key_id: self.key_id.clone(),
            scheme: self.scheme,
            signature: self.signature.clone(),
        }
    }
}

impl Signature {
    /// A signature that the key `key_id` made under `scheme`.
    pub fn new(key_id: KeyId, scheme: SignatureScheme, signature: SignatureValue) -> (r: Signature)
        ensures
            r@ == (SignatureView { key_id: key_id@, scheme: scheme, signature: signature@ }),
    {
        Signature { key_id, scheme, signature }
    }

    /// An immutable reference to the `KeyId` that produced the signature.
    pub fn key_id(&self) -> (r: &KeyId)
        ensures
            r@ == self@.key_id,
    {
        &self.key_id
    }

    /// An immutable reference to the `SignatureScheme` used to create this signature.
    pub fn scheme(&self) -> (r: &SignatureScheme)
        ensures
            *r == self@.scheme,
    {
        &self.scheme
    }

    /// An immutable reference to the `SignatureValue`.
    pub fn signature(&self) -> (r: &SignatureValue)
        ensures
            r@ == self@.signature,
    {
        &self.signature
    }
}

/// The available hash algorithms.
#[derive(Clone, Copy, Debug, Hash, PartialEq, Eq, Structural)]
pub enum HashAlgorithm {
    /// SHA256 as described in RFC-6234
    Sha256,
    /// SHA512 as described in RFC-6234
    Sha512,
}

impl View for HashAlgorithm {
    type V = HashAlgorithm;

    open spec fn view(&self) -> HashAlgorithm {
        *self
    }
}

impl Content for HashAlgorithm {
    fn duplicate(&self) -> (r: Self) {
        *self
    }
}

impl Label for HashAlgorithm {
    fn same(&self, other: &Self) -> (r: bool) {
        match (self, other) {
            (HashAlgorithm::Sha256, HashAlgorithm::Sha256) => true,
            (HashAlgorithm::Sha512, HashAlgorithm::Sha512) => true,
            _ => false,
        }
    }
}

/// Wrapper for the value of a hash digest.
#[derive(Debug, PartialEq, Eq)]
pub struct HashValue(Vec<u8>);

impl View for HashValue {
    type V = Seq<u8>;

    closed spec fn view(&self) -> Seq<u8> {
        self.0@
    }
}

impl Clone for HashValue {
    fn clone(&self) -> (r: Self)
        ensures
            r@ == self@,
    {
        HashValue(slice_to_vec(self.0.as_slice()))
    }
}

impl Content for HashValue {
    fn duplicate(&self) -> (r: Self) {
        self.clone()
    }
}

impl HashValue {
    /// Create a new `HashValue` from the given digest bytes.
    pub fn new(bytes: Vec<u8>) -> (r: HashValue)
        ensures
            r@ == bytes@,
    {
        HashValue(bytes)
    }

    /// An immutable reference to the bytes of the hash value.
    pub fn value(&self) -> (r: &[u8])
        ensures
            r@ == self@,
    {
        self.0.as_slice()
    }
}

} // verus!
