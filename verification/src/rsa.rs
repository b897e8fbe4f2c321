//! The two DER encodings of an RSA public key that the library reads:
//! PKCS#1 `RSAPublicKey` and X.509 `SubjectPublicKeyInfo` (SPKI).
//!
//! Only definite lengths in their shortest form are read, and lengths below
//! 65536, which is enough for any modulus that signature verification takes.

use vstd::prelude::*;
use vstd::slice::slice_subrange;
use vstd::slice::slice_to_vec;

verus! {

/// The identifier octet of an INTEGER.
pub const TAG_INTEGER: u8 = 0x02;

/// The identifier octet of a BIT STRING.
pub const TAG_BIT_STRING: u8 = 0x03;

/// The identifier octet of a SEQUENCE.
pub const TAG_SEQUENCE: u8 = 0x30;

/// Where the contents of the element at the front of `s` start, and how long
/// they are, as its length octets say.
pub open spec fn header(s: Seq<u8>) -> Option<(nat, nat)> {
    if s.len() < 2 {
        None
    } else if s[1] < 0x80 {
        Some((2, s[1] as nat))
    } else if s[1] == 0x81 {
        if s.len() >= 3 && s[2] >= 0x80 {
            Some((3, s[2] as nat))
        } else {
            None
        }
    } else if s[1] == 0x82 {
        if s.len() >= 4 && s[2] != 0 {
            Some((4, (s[2] as nat * 256 + s[3] as nat) as nat))
        } else {
            None
        }
    } else {
        None
    }
}

/// The contents of the element with tag `tag` at the front of `s`, and what
/// follows the element.
pub open spec fn element(s: Seq<u8>, tag: u8) -> Option<(Seq<u8>, Seq<u8>)> {
    match header(s) {
        Some((start, len)) => if s[0] == tag && start + len <= s.len() {
            Some((s.subrange(start as int, (start + len) as int), s.skip((start + len) as int)))
        } else {
            None
        },
        None => None,
    }
}

/// `v` is the contents of an INTEGER that is positive and has no needless
/// leading zero octet.
pub open spec fn is_positive_integer(v: Seq<u8>) -> bool {
    &&& v.len() >= 1
    &&& v[0] < 0x80
    &&& v[0] == 0 ==> v.len() >= 2 && v[1] >= 0x80
}

/// `body` is two positive INTEGERs and nothing else.
pub open spec fn is_modulus_and_exponent(body: Seq<u8>) -> bool {
    match element(body, TAG_INTEGER) {
        Some((n, after_n)) => is_positive_integer(n) && match element(after_n, TAG_INTEGER) {
            Some((e, after_e)) => is_positive_integer(e) && after_e.len() == 0,
            None => false,
        },
        None => false,
    }
}

/// `s` is one PKCS#1 `RSAPublicKey`: a SEQUENCE of the modulus and the public
/// exponent, with nothing before or after.
pub open spec fn is_pkcs1(s: Seq<u8>) -> bool {
    match element(s, TAG_SEQUENCE) {
        Some((body, rest)) => rest.len() == 0 && is_modulus_and_exponent(body),
        None => false,
    }
}

/// The contents of the AlgorithmIdentifier of an RSA key: the object
/// identifier 1.2.840.113549.1.1.1 and a NULL.
pub open spec fn rsa_algorithm() -> Seq<u8> {
    seq![0x06u8, 0x09, 0x2a, 0x86, 0x48, 0x86, 0xf7, 0x0d, 0x01, 0x01, 0x01, 0x05, 0x00]
}

/// The key inside a BIT STRING's contents: no unused bits, then a PKCS#1 key.
pub open spec fn key_in_bits(bits: Seq<u8>) -> Option<Seq<u8>> {
    if bits.len() >= 1 && bits[0] == 0 && is_pkcs1(bits.skip(1)) {
        Some(bits.skip(1))
    } else {
        None
    }
}

/// The PKCS#1 key that the SPKI document `s` carries, if `s` is one for an
/// RSA key.
pub open spec fn spki_key(s: Seq<u8>) -> Option<Seq<u8>> {
    match element(s, TAG_SEQUENCE) {
        Some((body, rest)) => if rest.len() != 0 {
            None
        } else {
            match element(body, TAG_SEQUENCE) {
                Some((algorithm, after)) => if algorithm != rsa_algorithm() {
                    None
                } else {
                    match element(after, TAG_BIT_STRING) {
                        Some((bits, end)) => if end.len() != 0 {
                            None
                        } else {
                            key_in_bits(bits)
                        },
                        None => None,
                    }
                },
                None => None,
            }
        },
        None => None,
    }
}

/// A PKCS#1 key is shorter than 65540 octets.
pub proof fn pkcs1_is_short(s: Seq<u8>)
    requires
        is_pkcs1(s),
    ensures
        s.len() < 65540,
{
    let (start, len) = header(s).unwrap();
    assert(s.skip((start + len) as int).len() == 0);
}

fn read_header(s: &[u8]) -> (r: Option<(usize, usize)>)
    ensures
        match r {
            Some((start, len)) => header(s@) == Some((start as nat, len as nat)) && start <= 4
                && len < 65536,
            None => header(s@) is None,
        },
{
    if s.len() < 2 {
        return None;
    }
    let first: u8 = s[1];
    if first < 0x80 {
        Some((2, first as usize))
    } else if first == 0x81 {
        if s.len() >= 3 && s[2] >= 0x80 {
            Some((3, s[2] as usize))
        } else {
            None
        }
    } else if first == 0x82 {
        if s.len() >= 4 && s[2] != 0 {
            let high: usize = s[2] as usize;
            let low: usize = s[3] as usize;
            Some((4, high * 256 + low))
        } else {
            None
        }
    } else {
        None
    }
}

fn read_element<'a>(s: &'a [u8], tag: u8) -> (r: Option<(&'a [u8], &'a [u8])>)
    ensures
        match r {
            Some((value, rest)) => element(s@, tag) == Some((value@, rest@)),
            None => element(s@, tag) is None,
        },
{
    match read_header(s) {
        Some((start, len)) => {
            if s[0] == tag && len <= s.len() - start {
                let value = slice_subrange(s, start, start + len);
                let rest = slice_subrange(s, start + len, s.len());
                Some((value, rest))
            } else {
                None
            }
        },
        None => None,
    }
}

fn check_positive_integer(v: &[u8]) -> (r: bool)
    ensures
        r == is_positive_integer(v@),
{
    if v.len() < 1 {
        return false;
    }
    if v[0] >= 0x80 {
        return false;
    }
    if v[0] == 0 {
        return v.len() >= 2 && v[1] >= 0x80;
    }
    true
}

fn check_modulus_and_exponent(body: &[u8]) -> (r: bool)
    ensures
        r == is_modulus_and_exponent(body@),
{
    match read_element(body, TAG_INTEGER) {
        Some((n, after_n)) => {
            if !check_positive_integer(n) {
                return false;
            }
            match read_element(after_n, TAG_INTEGER) {
                Some((e, after_e)) => check_positive_integer(e) && after_e.len() == 0,
                None => false,
            }
        },
        None => false,
    }
}

/// Whether `s` is one PKCS#1 `RSAPublicKey`.
pub fn check_pkcs1(s: &[u8]) -> (r: bool)
    ensures
        r == is_pkcs1(s@),
{
    match read_element(s, TAG_SEQUENCE) {
        Some((body, rest)) => rest.len() == 0 && check_modulus_and_exponent(body),
        None => false,
    }
}

fn check_rsa_algorithm(a: &[u8]) -> (r: bool)
    ensures
        r == (a@ == rsa_algorithm()),
{
    if a.len() != 13 {
        assert(rsa_algorithm().len() == 13);
        return false;
    }
    let r = a[0] == 0x06 && a[1] == 0x09 && a[2] == 0x2a && a[3] == 0x86 && a[4] == 0x48 && a[5]
        == 0x86 && a[6] == 0xf7 && a[7] == 0x0d && a[8] == 0x01 && a[9] == 0x01 && a[10] == 0x01
        && a[11] == 0x05 && a[12] == 0x00;
    proof {
        let t = rsa_algorithm();
        if r {
            assert(a@ =~= t);
        } else {
            assert(t[0] == 0x06 && t[1] == 0x09 && t[2] == 0x2a && t[3] == 0x86 && t[4] == 0x48
                && t[5] == 0x86 && t[6] == 0xf7 && t[7] == 0x0d && t[8] == 0x01 && t[9] == 0x01
                && t[10] == 0x01 && t[11] == 0x05 && t[12] == 0x00);
        }
    }
    r
}

/// Reads a key that is given in PKCS#1 form: the key itself if `input` is
/// one, and nothing otherwise.
pub fn from_pkcs1(input: &[u8]) -> (r: Option<Vec<u8>>)
    ensures
        match r {
            Some(key) => is_pkcs1(input@) && key@ == input@,
            None => !is_pkcs1(input@),
        },
{
    if check_pkcs1(input) {
        Some(slice_to_vec(input))
    } else {
        None
    }
}

/// Reads a key that is given in SPKI form, and hands out the PKCS#1 key
/// inside it.
pub fn from_spki(input: &[u8]) -> (r: Option<Vec<u8>>)
    ensures
        match r {
            Some(key) => spki_key(input@) == Some(key@) && is_pkcs1(key@),
            None => spki_key(input@) is None,
        },
{
    let (body, rest) = match read_element(input, TAG_SEQUENCE) {
        Some(p) => p,
        None => {
            return None;
        },
    };
    if rest.len() != 0 {
        return None;
    }
    let (algorithm, after) = match read_element(body, TAG_SEQUENCE) {
        Some(p) => p,
        None => {
            return None;
        },
    };
    if !check_rsa_algorithm(algorithm) {
        return None;
    }
    let (bits, end) = match read_element(after, TAG_BIT_STRING) {
        Some(p) => p,
        None => {
            return None;
        },
    };
    if end.len() != 0 {
        return None;
    }
    if bits.len() < 1 || bits[0] != 0 {
        return None;
    }
    let key = slice_subrange(bits, 1, bits.len());
    assert(key@ == bits@.skip(1));
    if check_pkcs1(key) {
        Some(slice_to_vec(key))
    } else {
        None
    }
}

} // verus!
