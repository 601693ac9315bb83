//! The request signer: canonicalizes an outbound request per HTTP
//! Signature conventions, hashes and signs it with the actor's RSA key,
//! and returns the headers to attach. CPU-bound only; the caller injects
//! the date, so the result is a pure function of its arguments.

use vstd::prelude::*;
use vstd::utf8::encode_utf8;
use crate::errors::FederationError;
use crate::urls::Destination;
use base64::Engine;
use rsa::sha2::Digest;
use rsa::pkcs8::DecodePrivateKey;

verus! {

/// HTTP method of the request being signed.
#[derive(Clone, Copy, Debug, PartialEq, Eq, Structural)]
pub enum HttpMethod {
    Post,
    Get,
}

/// The lowercase method name used in the `(request-target)` pseudo-header.
pub open spec fn method_text(m: HttpMethod) -> Seq<char> {
    match m {
        HttpMethod::Post => "post"@,
        HttpMethod::Get => "get"@,
    }
}

/// The headers of a signed request, ready to attach before sending.
pub struct SignedHeaders {
    /// The injected request date, RFC 1123 form.
    pub date: String,
    /// `SHA-256=<base64 of the body hash>`.
    pub digest: String,
    /// The `Signature` header: key id, algorithm, signed header names,
    /// and the base64 signature value.
    pub signature: String,
    /// Always `application/json`.
    pub content_type: String,
}

/// Names the result of SHA-256, a function of the input bytes alone.
pub uninterp spec fn sha256_of(bytes: Seq<u8>) -> Seq<u8>;

/// Relies on `rsa::sha2::Sha256` (the SHA-256 hash): the digest is a
/// function of the input bytes alone, and is always 32 bytes long.
#[verifier::external_body]
fn sha256(bytes: &[u8]) -> (r: Vec<u8>)
    ensures
        r@ == sha256_of(bytes@),
        r@.len() == 32,
{
    rsa::sha2::Sha256::digest(bytes).to_vec()
}

/// Names the result of standard base64 encoding, a function of the input
/// bytes alone.
pub uninterp spec fn base64_of(bytes: Seq<u8>) -> Seq<char>;

/// Relies on `base64::engine::general_purpose::STANDARD` and
/// `base64::Engine::encode`: the standard alphabet with padding; the
/// result depends on the input bytes alone, and an empty input encodes
/// to an empty string.
#[verifier::external_body]
fn base64_encode(bytes: &[u8]) -> (r: String)
    ensures
        r@ == base64_of(bytes@),
        bytes@.len() == 0 ==> r@.len() == 0,
{
    base64::engine::general_purpose::STANDARD.encode(bytes)
}

/// Names the PKCS#1 v1.5 RSA-SHA256 signature of `msg` under the private
/// key written as the PEM text `key_pem`. The scheme is deterministic,
/// so the signature is a function of the key text and message alone.
pub uninterp spec fn rsa_sha256_sig_of(key_pem: Seq<char>, msg: Seq<u8>) -> Seq<u8>;

/// Names the key texts that RSA-SHA256 signing accepts: those that
/// parse as a PKCS#8 RSA private key large enough for the padded
/// SHA-256 digest. The message is always that 32-byte digest, so
/// whether signing succeeds depends on the key text alone.
pub uninterp spec fn rsa_key_ok(key_pem: Seq<char>) -> bool;

/// Relies on `rsa::RsaPrivateKey::from_pkcs8_pem` (PKCS#8 PEM parsing),
/// `rsa::sha2::Sha256` and `rsa::RsaPrivateKey::sign` with
/// `rsa::Pkcs1v15Sign` over SHA-256: one deterministic RSA-SHA256
/// signing step. It succeeds on exactly the key texts that parse as a
/// PKCS#8 RSA private key whose modulus carries the padded digest, and
/// fails on the rest.
#[verifier::external_body]
fn rsa_sha256_sign(key_pem: &str, msg: &[u8]) -> (r: Result<Vec<u8>, FederationError>)
    ensures
        r is Ok <==> rsa_key_ok(key_pem@),
        r is Ok ==> r->Ok_0@ == rsa_sha256_sig_of(key_pem@, msg@),
        r is Err ==> r->Err_0 == FederationError::SigningError,
{
    let key = match rsa::RsaPrivateKey::from_pkcs8_pem(key_pem) {
        Ok(k) => k,
        Err(_) => return Err(FederationError::SigningError),
    };
    let hashed = rsa::sha2::Sha256::digest(msg);
    match key.sign(rsa::Pkcs1v15Sign::new::<rsa::sha2::Sha256>(), &hashed) {
        Ok(sig) => Ok(sig),
        Err(_) => Err(FederationError::SigningError),
    }
}

/// The `Digest` header value announcing the SHA-256 hash of the body.
pub open spec fn digest_header_text(body_bytes: Seq<u8>) -> Seq<char> {
    "SHA-256="@ + base64_of(sha256_of(body_bytes))
}

/// Computes the `Digest` header for a request body.
pub fn digest_header(body: &str) -> (r: String)
    ensures
        r@ == digest_header_text(encode_utf8(body@)),
{
    let hash = sha256(body.as_bytes());
    let b64 = base64_encode(hash.as_slice());
    let mut r = String::from_str("SHA-256=");
    r.append(b64.as_str());
    r
}

/// The canonical string that is signed: the request target, host, date
/// and body digest, in the fixed order the `Signature` header announces.
pub open spec fn canonical_request_text(
    m: HttpMethod,
    target: Destination,
    date: Seq<char>,
    body: Seq<char>,
) -> Seq<char> {
    "(request-target): "@ + method_text(m) + " "@ + target.path@ + "\nhost: "@ + target.host@
        + "\ndate: "@ + date + "\ndigest: "@ + digest_header_text(encode_utf8(body))
}

/// The `Signature` header naming the signing actor's key, the algorithm,
/// the covered headers, and the base64 signature value.
pub open spec fn signature_header_text(actor_id: Seq<char>, sig_b64: Seq<char>) -> Seq<char> {
    "keyId=\""@ + actor_id
        + "#main-key\",algorithm=\"rsa-sha256\",headers=\"(request-target) host date digest\",signature=\""@
        + sig_b64 + "\""@
}

/// The Signature header names the signing actor: its text begins with
/// `keyId="` followed by the signing actor's identity URL. Delivery on
/// behalf of a community therefore always announces the community's
/// key, never the original author's.
pub proof fn lemma_signature_header_names_actor(actor_id: Seq<char>, sig_b64: Seq<char>)
    ensures
        signature_header_text(actor_id, sig_b64).subrange(0, 7) == "keyId=\""@,
        signature_header_text(actor_id, sig_b64).subrange(7, 7 + actor_id.len() as int)
            == actor_id,
{
    reveal_strlit("keyId=\"");
    let h = signature_header_text(actor_id, sig_b64);
    assert(h.subrange(0, 7) =~= "keyId=\""@);
    assert(h.subrange(7, 7 + actor_id.len() as int) =~= actor_id);
}

/// The headers `sign` owes on success, as a function of its arguments.
pub open spec fn signed_headers_text(
    m: HttpMethod,
    target: Destination,
    body: Seq<char>,
    actor_id: Seq<char>,
    key_pem: Seq<char>,
    date: Seq<char>,
    h: SignedHeaders,
) -> bool {
    &&& h.date@ == date
    &&& h.content_type@ == "application/json"@
    &&& h.digest@ == digest_header_text(encode_utf8(body))
    &&& h.signature@ == signature_header_text(
        actor_id,
        base64_of(rsa_sha256_sig_of(key_pem, encode_utf8(canonical_request_text(m, target, date, body)))),
    )
}

/// Signs one outbound request: canonicalizes method, path, host, date
/// and body digest, signs the canonical string with the actor's RSA key,
/// and returns the `Date`, `Digest`, `Signature` and `Content-Type`
/// headers. Deterministic in its arguments — the caller supplies the
/// date, so tests can inject a clock. Fails with `SigningError` exactly
/// when the underlying RSA step rejects the key material; it never
/// retries, retry is the queue's responsibility.
pub fn sign(
    m: HttpMethod,
    target: &Destination,
    body: &str,
    actor_id: &String,
    private_key_pem: &String,
    date: &String,
) -> (r: Result<SignedHeaders, FederationError>)
    ensures
        r is Ok <==> rsa_key_ok(private_key_pem@),
        r is Ok ==> signed_headers_text(
            m,
            *target,
            body@,
            actor_id@,
            private_key_pem@,
            date@,
            r->Ok_0,
        ),
        r is Err ==> r == Err::<SignedHeaders, FederationError>(FederationError::SigningError),
{
    let digest = digest_header(body);
    let mut canonical = String::from_str("(request-target): ");
    match m {
        HttpMethod::Post => canonical.append("post"),
        HttpMethod::Get => canonical.append("get"),
    }
    canonical.append(" ");
    canonical.append(target.path.as_str());
    canonical.append("\nhost: ");
    canonical.append(target.host.as_str());
    canonical.append("\ndate: ");
    canonical.append(date.as_str());
    canonical.append("\ndigest: ");
    canonical.append(digest.as_str());
    let sig = match rsa_sha256_sign(private_key_pem.as_str(), canonical.as_str().as_bytes()) {
        Ok(sig) => sig,
        Err(_) => {
            return Err(FederationError::SigningError);
        },
    };
    let sig_b64 = base64_encode(sig.as_slice());
    let mut signature = String::from_str("keyId=\"");
    signature.append(actor_id.as_str());
    signature.append(
        "#main-key\",algorithm=\"rsa-sha256\",headers=\"(request-target) host date digest\",signature=\"",
    );
    signature.append(sig_b64.as_str());
    signature.append("\"");
    Ok(
        SignedHeaders {
            date: date.clone(),
            digest,
            signature,
            content_type: String::from_str("application/json"),
        },
    )
}

} // verus!
