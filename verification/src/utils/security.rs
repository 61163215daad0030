use vstd::prelude::*;
use sha2::Digest;
use crate::error::HiveDropError;
use crate::text::push_char;

verus! {

/// The SHA-256 digest of `data`.
pub uninterp spec fn sha256_spec(data: Seq<u8>) -> Seq<u8>;

/// The SHA-256 digest of `data` (`sha2::Sha256::digest`).
/// Trusted: the result is `sha256_spec(data)`, 32 bytes long.
#[verifier::external_body]
fn sha256(data: &[u8]) -> (r: Vec<u8>)
    ensures
        r@ == sha256_spec(data@),
        r@.len() == 32,
{
    sha2::Sha256::digest(data).to_vec()
}

/// The lower-case hexadecimal digit of `d < 16`.
pub open spec fn hex_digit(d: int) -> char {
    if d < 10 { ((48 + d) as u32) as char } else { ((87 + d) as u32) as char }
}

/// A byte as two lower-case hexadecimal digits (`format!("{:02x}", b)`).
pub open spec fn hex2(b: u8) -> Seq<char> {
    seq![hex_digit((b / 16) as int), hex_digit((b % 16) as int)]
}

/// The bytes of `d` as pairs of lower-case hexadecimal digits joined by `:`.
pub open spec fn fingerprint_text(d: Seq<u8>) -> Seq<char>
    decreases d.len(),
{
    if d.len() == 0 {
        Seq::empty()
    } else if d.len() == 1 {
        hex2(d[0])
    } else {
        fingerprint_text(d.drop_last()) + seq![':'] + hex2(d.last())
    }
}

fn hex_digit_exec(d: u8) -> (c: char)
    requires
        d < 16,
    ensures
        c == hex_digit(d as int),
{
    if d < 10 { (48u8 + d) as char } else { (87u8 + d) as char }
}

/// The SHA-256 fingerprint of a certificate: its digest as lower-case
/// hexadecimal pairs separated by colons.
pub fn calculate_cert_fingerprint(cert_data: &[u8]) -> (r: String)
    ensures
        r@ == fingerprint_text(sha256_spec(cert_data@)),
        r@.len() == 95,
{
    let digest = sha256(cert_data);
    let ghost d = digest@;
    proof {
        lemma_fingerprint_shape(d);
    }
    let mut s = String::new();
    let mut i: usize = 0;
    while i < digest.len()
        invariant
            d == digest@,
            i <= d.len(),
            s@ == fingerprint_text(d.take(i as int)),
        decreases d.len() - i,
    {
        let b = digest[i];
        assert(d.take(i + 1).drop_last() == d.take(i as int));
        assert(d.take(i + 1).last() == b);
        if i > 0 {
            push_char(&mut s, ':');
        }
        push_char(&mut s, hex_digit_exec(b / 16));
        push_char(&mut s, hex_digit_exec(b % 16));
        proof {
            if i == 0 {
                assert(d.take(1)[0] == b);
                assert(s@ =~= hex2(b));
            } else {
                assert(s@ =~= fingerprint_text(d.take(i as int)) + seq![':'] + hex2(b));
            }
        }
        i = i + 1;
    }
    assert(d.take(d.len() as int) == d);
    s
}

/// The fingerprint text of a digest of `n > 0` bytes has `3n - 1` characters:
/// two hexadecimal digits per byte and a colon between bytes.
pub proof fn lemma_fingerprint_shape(d: Seq<u8>)
    ensures
        d.len() > 0 ==> fingerprint_text(d).len() == 3 * d.len() - 1,
        forall|i: int| 0 <= i < fingerprint_text(d).len() ==>
            (#[trigger] fingerprint_text(d)[i] == ':' <==> i % 3 == 2),
    decreases d.len(),
{
    if d.len() > 1 {
        lemma_fingerprint_shape(d.drop_last());
        let p = fingerprint_text(d.drop_last());
        let f = fingerprint_text(d);
        assert forall|i: int| 0 <= i < f.len() implies (#[trigger] f[i] == ':' <==> i % 3 == 2) by {
            if i < p.len() {
                assert(f[i] == p[i]);
            } else if i == p.len() {
                assert(f[i] == ':');
            } else {
                let b = d.last();
                assert(f[i] == hex2(b)[i - p.len() - 1]);
                assert(hex_digit((b / 16) as int) != ':' && hex_digit((b % 16) as int) != ':');
            }
        }
    } else if d.len() == 1 {
        let b = d[0];
        assert(hex_digit((b / 16) as int) != ':' && hex_digit((b % 16) as int) != ':');
    }
}

/// A self-signed certificate (`rcgen::Certificate`).
#[verifier::external_type_specification]
#[verifier::external_body]
pub struct ExCertificate(rcgen::Certificate);

/// A fresh self-signed certificate for `names` (`rcgen::generate_simple_self_signed`).
/// Trusted: nothing is said of the certificate, whose key is random; an error is
/// given as its text.
#[verifier::external_body]
fn generate_simple_self_signed(names: Vec<String>) -> (r: Result<rcgen::Certificate, String>) {
    rcgen::generate_simple_self_signed(names).map_err(|e| e.to_string())
}

/// The certificate in PEM form (`rcgen::Certificate::serialize_pem`).
/// Trusted: nothing is said of the text; an error is given as its text.
#[verifier::external_body]
fn serialize_pem(cert: &rcgen::Certificate) -> (r: Result<String, String>) {
    cert.serialize_pem().map_err(|e| e.to_string())
}

/// The certificate's private key in PEM form
/// (`rcgen::Certificate::serialize_private_key_pem`).
/// Trusted: nothing is said of the text.
#[verifier::external_body]
fn serialize_private_key_pem(cert: &rcgen::Certificate) -> (r: String) {
    cert.serialize_private_key_pem()
}

/// The names a certificate of this device is made for: `localhost`.
fn certificate_names() -> (r: Vec<String>)
    ensures
        crate::text::strings_view(r@) == seq!["localhost"@],
{
    let mut names: Vec<String> = Vec::new();
    names.push("localhost".to_owned());
    assert(crate::text::strings_view(names@) =~= seq!["localhost"@]);
    names
}

/// A fresh self-signed certificate for `localhost`: the certificate and its
/// private key in PEM form, and the certificate's fingerprint. Errors of the
/// generation are certificate-generation errors.
pub fn generate_self_signed_cert() -> (r: Result<(Vec<u8>, Vec<u8>, String), HiveDropError>)
    ensures
        r matches Ok((cert, _key, fp)) ==> fp@ == fingerprint_text(sha256_spec(cert@)) && fp@.len() == 95,
        r matches Err(e) ==> e is RcgenError,
{
    let names = certificate_names();
    let cert = match generate_simple_self_signed(names) {
        Ok(c) => c,
        Err(m) => {
            return Err(HiveDropError::RcgenError(m));
        },
    };
    let cert_pem = match serialize_pem(&cert) {
        Ok(p) => p,
        Err(m) => {
            return Err(HiveDropError::RcgenError(m));
        },
    };
    let key_pem = serialize_private_key_pem(&cert);
    let cert_bytes = vstd::slice::slice_to_vec(cert_pem.as_str().as_bytes());
    let key_bytes = vstd::slice::slice_to_vec(key_pem.as_str().as_bytes());
    let fingerprint = calculate_cert_fingerprint(cert_bytes.as_slice());
    Ok((cert_bytes, key_bytes, fingerprint))
}

} // verus!
