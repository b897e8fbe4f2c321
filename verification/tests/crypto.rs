use ring::signature::Ed25519KeyPair;
use ring::signature::KeyPair;
use tuf::crypto::calculate_key_id;
use tuf::crypto::KeyFormat;
use tuf::crypto::KeyId;
use tuf::crypto::KeyType;
use tuf::crypto::PublicKey;
use tuf::crypto::PublicKeyValue;
use tuf::crypto::SignatureScheme;
use tuf::crypto::SignatureValue;
use tuf::error::Error;
use tuf::rsa::check_pkcs1;
use tuf::rsa::from_pkcs1;
use tuf::rsa::from_spki;

const PKCS1: &str = "3082010a0282010100a7593952e2e65810d793eed14efbc9130be202a9d48bbbd64562a1729b0c1e02de4e0c80b105c28a80f072c7f7d1a48035d52d9c8a2eb09c0e37ca45ee357b983998ffee55fd97c9fc5dfd2f4ea7fc1d2e83269e3c1fda8af8d3bcbdfd4654ddbf97e18f7d280e6d4f06f74aa6b19e947e490466dcfa56f94ca0e3cef2b5e720eeeb93c3160f194d1025d2b36bee10f1dfd191c1c926d259ff4ff30da8c1ffa4a729e5daa24626c455f82b5f099ac02b143d2b7ddea3c0eee94c11a51c3e93d4e33ec9f21c494264a42945646244f4012da3ff46cf5f6adb2c0802262af8f05e7c1d785973c89dd3dd203b710884c6098a406dcece05b7f19a693d917f7f0ff90203010001";

const SPKI: &str = "30820122300d06092a864886f70d01010105000382010f003082010a0282010100a7593952e2e65810d793eed14efbc9130be202a9d48bbbd64562a1729b0c1e02de4e0c80b105c28a80f072c7f7d1a48035d52d9c8a2eb09c0e37ca45ee357b983998ffee55fd97c9fc5dfd2f4ea7fc1d2e83269e3c1fda8af8d3bcbdfd4654ddbf97e18f7d280e6d4f06f74aa6b19e947e490466dcfa56f94ca0e3cef2b5e720eeeb93c3160f194d1025d2b36bee10f1dfd191c1c926d259ff4ff30da8c1ffa4a729e5daa24626c455f82b5f099ac02b143d2b7ddea3c0eee94c11a51c3e93d4e33ec9f21c494264a42945646244f4012da3ff46cf5f6adb2c0802262af8f05e7c1d785973c89dd3dd203b710884c6098a406dcece05b7f19a693d917f7f0ff90203010001";

const SIG_SHA256: &str = "79fa89fc0ca2de0c7e17be4631311f4aca1ba507d89bcde9fce35a5e75992e2f6b6d997f760085479c90a6a02fd0772f7bfac1bfed64c3913a8b39d3d556cc352bf820a2a67d8f26edea4086facd640e1a6b134fed669a32c2eeca4bcc077db5daa8b8e0eafd0535c405a5b7633533350649c50e1c1b0a7fddf74b272868913678509d83721e7b9b158d0d55df0030c86a722fa3e41e75426e6bd92aedc0a816c51347d88799edc198c7ae1ae07ae7f83fb0881e7b59ea61311621776b7ca9580a70d08226e529563a7f76d55e4d44ea608a0899d43bda65c1d27412e11def65a55111436809864076651203019af6a03ea30daf08bf2e7ddea17ea47cc78be9";

const SIG_SHA512: &str = "86e5bed00a086fb4f77ebe1f6e507377ccbd921f2aaf0f3bc071d405908b204fd163d57acb5036aad04669fa0c1a12b0fe3468b732046e96306c55b6fe9aacfe6a724ca93d2d19ca209cd8bac65a63efd269d14d0dddd945d2291fcc9ba1c6c09f88a6fadd48083a87c8044f19abf03f2ce012a5323096ca61fe7bb4ab3e5e42d85f1122d9ae364fde9cac93a629cbae9d6c2e19eb04d60fac2e57dd9a40b30a9642b500196b3c69d0533d20361a9ce4d936b8b9d65996d18bf5fad1ffd3bfa70e34a8b84b6aae44d239e6d5f63d09ef48f91b0f18dad013587602c135b62c5ca18e5074f265d77225fd1c18af0ebd042864590dfcacdc821baaa5e6e52cfd05";

fn bytes(hex: &str) -> Vec<u8> {
    SignatureValue::from_string(hex).unwrap().value().to_vec()
}

#[test]
fn hex_decodes_two_digits_a_byte() {
    let id = KeyId::from_string("deadbeef00ff").unwrap();
    assert_eq!(id.value(), &[0xde, 0xad, 0xbe, 0xef, 0x00, 0xff]);
    let sig = SignatureValue::from_string("0a1b").unwrap();
    assert_eq!(sig.value(), &[0x0a, 0x1b]);
    assert_eq!(KeyId::from_string("").unwrap().value(), &[] as &[u8]);
}

#[test]
fn hex_refuses_what_is_not_lower_case_hex() {
    let expected = Err(Error::Decode("not lower-case hexadecimal".to_string()));
    assert_eq!(KeyId::from_string("DEADBEEF"), expected);
    assert_eq!(KeyId::from_string("abc"), expected);
    assert_eq!(KeyId::from_string("zz"), expected);
    assert_eq!(KeyId::from_string("ab cd"), expected);
    assert_eq!(
        SignatureValue::from_string("0g"),
        Err(Error::Decode("not lower-case hexadecimal".to_string()))
    );
}

#[test]
fn signature_scheme_names() {
    assert_eq!(SignatureScheme::from_str("ed25519"), Ok(SignatureScheme::Ed25519));
    assert_eq!(
        SignatureScheme::from_str("rsassa-pss-sha256"),
        Ok(SignatureScheme::RsaSsaPssSha256)
    );
    assert_eq!(
        SignatureScheme::from_str("rsassa-pss-sha512"),
        Ok(SignatureScheme::RsaSsaPssSha512)
    );
    assert_eq!(SignatureScheme::Ed25519.to_string(), "ed25519");
    assert_eq!(SignatureScheme::RsaSsaPssSha256.to_string(), "rsassa-pss-sha256");
    assert_eq!(SignatureScheme::RsaSsaPssSha512.to_string(), "rsassa-pss-sha512");
    assert_eq!(
        SignatureScheme::from_str("dsa"),
        Err(Error::UnsupportedSignatureScheme("dsa".to_string()))
    );
    assert_eq!(
        SignatureScheme::from_str("ED25519"),
        Err(Error::UnsupportedSignatureScheme("ED25519".to_string()))
    );
}

#[test]
fn key_type_names() {
    assert_eq!(KeyType::from_str("ed25519"), Ok(KeyType::Ed25519));
    assert_eq!(KeyType::from_str("rsa"), Ok(KeyType::Rsa));
    assert_eq!(KeyType::Ed25519.to_string(), "ed25519");
    assert_eq!(KeyType::Rsa.to_string(), "rsa");
    assert_eq!(KeyType::from_str("ecdsa"), Err(Error::UnsupportedKeyType("ecdsa".to_string())));
}

#[test]
fn key_id_is_sha256_of_the_key_bytes() {
    let id = calculate_key_id(&PublicKeyValue::new(b"abc".to_vec()));
    assert_eq!(
        id,
        KeyId::from_string("ba7816bf8f01cfea414140de5dae2223b00361a396177a9cb410ff61f20015ad")
            .unwrap()
    );
    let empty = calculate_key_id(&PublicKeyValue::new(Vec::new()));
    assert_eq!(
        empty,
        KeyId::from_string("e3b0c44298fc1c149afbf4c8996fb92427ae41e4649b934ca495991b7852b855")
            .unwrap()
    );
}

#[test]
fn ed25519_key_must_be_32_bytes() {
    assert_eq!(
        PublicKey::from_ed25519(PublicKeyValue::new(vec![0; 31])),
        Err(Error::IllegalArgument("Ed25519 public key was not 32 bytes long".to_string()))
    );
    assert_eq!(
        PublicKey::from_ed25519(PublicKeyValue::new(vec![0; 33])),
        Err(Error::IllegalArgument("Ed25519 public key was not 32 bytes long".to_string()))
    );
    let key = PublicKey::from_ed25519(PublicKeyValue::new(vec![7; 32])).unwrap();
    assert_eq!(key.typ(), &KeyType::Ed25519);
    assert_eq!(key.format(), &KeyFormat::HexLower);
    assert_eq!(key.value().value(), &[7u8; 32]);
    assert_eq!(key.key_id(), &calculate_key_id(&PublicKeyValue::new(vec![7; 32])));
}

#[test]
fn ed25519_signature_verifies_only_over_its_message() {
    let pair = Ed25519KeyPair::from_seed_unchecked(&[9; 32]).unwrap();
    let key =
        PublicKey::from_ed25519(PublicKeyValue::new(pair.public_key().as_ref().to_vec())).unwrap();
    let sig = SignatureValue::new(pair.sign(b"hello").as_ref().to_vec());
    assert_eq!(key.verify(&SignatureScheme::Ed25519, b"hello", &sig), Ok(()));
    assert_eq!(key.verify(&SignatureScheme::Ed25519, b"hellp", &sig), Err(Error::BadSignature));
    assert_eq!(
        key.verify(&SignatureScheme::RsaSsaPssSha256, b"hello", &sig),
        Err(Error::BadSignature)
    );
    let other = Ed25519KeyPair::from_seed_unchecked(&[10; 32]).unwrap();
    let other_sig = SignatureValue::new(other.sign(b"hello").as_ref().to_vec());
    assert_eq!(key.verify(&SignatureScheme::Ed25519, b"hello", &other_sig), Err(Error::BadSignature));
    assert_eq!(
        key.verify(&SignatureScheme::Ed25519, b"hello", &SignatureValue::new(Vec::new())),
        Err(Error::BadSignature)
    );
}

#[test]
fn rsa_key_in_pkcs1_is_stored_as_it_is() {
    let key = PublicKey::from_rsa(PublicKeyValue::new(bytes(PKCS1)), KeyFormat::Pkcs1).unwrap();
    assert_eq!(key.typ(), &KeyType::Rsa);
    assert_eq!(key.format(), &KeyFormat::Pkcs1);
    assert_eq!(key.value().value(), bytes(PKCS1).as_slice());
    assert_eq!(
        key.key_id(),
        &KeyId::from_string("38118e91f65a4eed513011ec4e7715c568134877b641b4dc175925dc4fd62597")
            .unwrap()
    );
}

#[test]
fn rsa_key_in_spki_is_stored_as_pkcs1() {
    let key = PublicKey::from_rsa(PublicKeyValue::new(bytes(SPKI)), KeyFormat::Spki).unwrap();
    assert_eq!(key.typ(), &KeyType::Rsa);
    assert_eq!(key.format(), &KeyFormat::Spki);
    assert_eq!(key.value().value(), bytes(PKCS1).as_slice());
    assert_eq!(
        key.key_id(),
        &KeyId::from_string("38118e91f65a4eed513011ec4e7715c568134877b641b4dc175925dc4fd62597")
            .unwrap()
    );
}

#[test]
fn rsa_key_read_again_has_the_same_id() {
    let first = PublicKey::from_rsa(PublicKeyValue::new(bytes(SPKI)), KeyFormat::Spki).unwrap();
    let again = PublicKey::from_rsa(first.value().clone(), KeyFormat::Pkcs1).unwrap();
    assert_eq!(first.key_id(), again.key_id());
    assert_eq!(first.value(), again.value());
}

#[test]
fn rsa_key_in_the_wrong_format_is_refused() {
    assert_eq!(
        PublicKey::from_rsa(PublicKeyValue::new(bytes(SPKI)), KeyFormat::Pkcs1),
        Err(Error::IllegalArgument("Key claimed to be PKCS1 but could not be parsed.".to_string()))
    );
    assert_eq!(
        PublicKey::from_rsa(PublicKeyValue::new(bytes(PKCS1)), KeyFormat::Spki),
        Err(Error::IllegalArgument("Key claimed to be SPKI but could not be parsed.".to_string()))
    );
    assert_eq!(
        PublicKey::from_rsa(PublicKeyValue::new(bytes(PKCS1)), KeyFormat::HexLower),
        Err(Error::IllegalArgument("RSA keys in format HexLower not supported.".to_string()))
    );
    assert_eq!(
        PublicKey::from_rsa(PublicKeyValue::new(Vec::new()), KeyFormat::Pkcs1),
        Err(Error::IllegalArgument("Key claimed to be PKCS1 but could not be parsed.".to_string()))
    );
}

#[test]
fn rsa_signatures_verify_under_their_scheme() {
    let key = PublicKey::from_rsa(PublicKeyValue::new(bytes(PKCS1)), KeyFormat::Pkcs1).unwrap();
    let sig256 = SignatureValue::from_string(SIG_SHA256).unwrap();
    let sig512 = SignatureValue::from_string(SIG_SHA512).unwrap();
    assert_eq!(key.verify(&SignatureScheme::RsaSsaPssSha256, b"hello", &sig256), Ok(()));
    assert_eq!(key.verify(&SignatureScheme::RsaSsaPssSha512, b"hello", &sig512), Ok(()));
    assert_eq!(
        key.verify(&SignatureScheme::RsaSsaPssSha512, b"hello", &sig256),
        Err(Error::BadSignature)
    );
    assert_eq!(
        key.verify(&SignatureScheme::RsaSsaPssSha256, b"hullo", &sig256),
        Err(Error::BadSignature)
    );
    assert_eq!(key.verify(&SignatureScheme::Ed25519, b"hello", &sig256), Err(Error::BadSignature));
}

#[test]
fn pkcs1_reader_is_strict() {
    // SEQUENCE { INTEGER 0x00c1, INTEGER 3 }
    let small = vec![0x30, 0x07, 0x02, 0x02, 0x00, 0xc1, 0x02, 0x01, 0x03];
    assert!(check_pkcs1(&small));
    assert_eq!(from_pkcs1(&small), Some(small.clone()));
    // something after the sequence
    let mut trailing = small.clone();
    trailing.push(0);
    assert!(!check_pkcs1(&trailing));
    // a negative modulus
    assert!(!check_pkcs1(&[0x30, 0x06, 0x02, 0x01, 0xc1, 0x02, 0x01, 0x03]));
    // a needless leading zero
    assert!(!check_pkcs1(&[0x30, 0x07, 0x02, 0x02, 0x00, 0x41, 0x02, 0x01, 0x03]));
    // zero
    assert!(!check_pkcs1(&[0x30, 0x06, 0x02, 0x01, 0x00, 0x02, 0x01, 0x03]));
    // a third integer
    assert!(!check_pkcs1(&[0x30, 0x09, 0x02, 0x01, 0x05, 0x02, 0x01, 0x03, 0x02, 0x01, 0x03]));
    // a length in the long form where the short form would do
    assert!(!check_pkcs1(&[0x30, 0x81, 0x06, 0x02, 0x01, 0x05, 0x02, 0x01, 0x03]));
    // a length beyond the end
    assert!(!check_pkcs1(&[0x30, 0x07, 0x02, 0x01, 0x05, 0x02, 0x01, 0x03]));
    assert!(!check_pkcs1(&[]));
    assert!(!check_pkcs1(&[0x30]));
}

#[test]
fn spki_reader_hands_out_the_inner_key() {
    assert_eq!(from_spki(&bytes(SPKI)), Some(bytes(PKCS1)));
    assert_eq!(from_spki(&bytes(PKCS1)), None);
    // another algorithm: the last octet of the object identifier differs
    let mut other = bytes(SPKI);
    other[16] = 0x02;
    assert_eq!(from_spki(&other), None);
    // unused bits in the bit string
    let mut unused = bytes(SPKI);
    unused[23] = 0x01;
    assert_eq!(from_spki(&unused), None);
    assert_eq!(from_spki(&[]), None);
}
