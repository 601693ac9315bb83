use apub_delivery::errors::FederationError;
use apub_delivery::queue::{sign_task, DeliveryTask, TaskState};
use apub_delivery::activity::generate_activity_id;
use apub_delivery::signer::{digest_header, sign, HttpMethod, SignedHeaders};
use apub_delivery::urls::{check_is_apub_id_valid, Destination, FederationSettings};
use base64::Engine;
use rsa::pkcs8::EncodePrivateKey;
use rsa::sha2::Digest;

fn signing_dest() -> Destination {
    Destination {
        scheme: "https".to_string(),
        host: "remote.example".to_string(),
        path: "/u/bob/inbox".to_string(),
    }
}

fn fresh_key_pem() -> (rsa::RsaPrivateKey, String) {
    let mut rng = rand::thread_rng();
    let key = rsa::RsaPrivateKey::new(&mut rng, 1024).expect("key generation");
    let pem = key
        .to_pkcs8_pem(rsa::pkcs8::LineEnding::LF)
        .expect("pem encoding")
        .to_string();
    (key, pem)
}

#[test]
fn test_digest_header_of_empty_body() {
    // SHA-256 of the empty input, base64 encoded.
    assert_eq!(
        digest_header(""),
        "SHA-256=47DEQpj8HBSa+/TImW+5JCeuQeRkm5NMpJWZG3hSuFU="
    );
}

#[test]
fn test_digest_header_matches_recomputation() {
    let body = "{\"type\":\"Note\",\"content\":\"hi\"}";
    let hash = rsa::sha2::Sha256::digest(body.as_bytes());
    let expected = format!(
        "SHA-256={}",
        base64::engine::general_purpose::STANDARD.encode(hash)
    );
    assert_eq!(digest_header(body), expected);
}

#[test]
fn test_sign_produces_verifiable_signature() {
    let (key, pem) = fresh_key_pem();
    let dest = signing_dest();
    let actor_id = "https://home.example/c/main".to_string();
    let date = "Sun, 06 Nov 1994 08:49:37 GMT".to_string();
    let body = "{\"type\":\"Note\"}";
    let headers: SignedHeaders =
        sign(HttpMethod::Post, &dest, body, &actor_id, &pem, &date).expect("signing");

    assert_eq!(headers.date, date);
    assert_eq!(headers.content_type, "application/json");
    assert_eq!(headers.digest, digest_header(body));

    let prefix = format!(
        "keyId=\"{}#main-key\",algorithm=\"rsa-sha256\",headers=\"(request-target) host date digest\",signature=\"",
        actor_id
    );
    assert!(headers.signature.starts_with(&prefix));
    assert!(headers.signature.ends_with('"'));
    let sig_b64 = &headers.signature[prefix.len()..headers.signature.len() - 1];
    let sig = base64::engine::general_purpose::STANDARD
        .decode(sig_b64)
        .expect("base64 signature");

    let canonical = format!(
        "(request-target): post {}\nhost: {}\ndate: {}\ndigest: {}",
        dest.path, dest.host, date, headers.digest
    );
    let hashed = rsa::sha2::Sha256::digest(canonical.as_bytes());
    let public = rsa::RsaPublicKey::from(&key);
    public
        .verify(
            rsa::Pkcs1v15Sign::new::<rsa::sha2::Sha256>(),
            &hashed,
            &sig,
        )
        .expect("signature verifies against the canonical string");
}

#[test]
fn test_sign_rejects_malformed_key() {
    let dest = signing_dest();
    let r = sign(
        HttpMethod::Post,
        &dest,
        "{}",
        &"https://home.example/u/alice".to_string(),
        &"not a pem key".to_string(),
        &"Sun, 06 Nov 1994 08:49:37 GMT".to_string(),
    );
    assert_eq!(r.err(), Some(FederationError::SigningError));
}

#[test]
fn test_sign_task_signs_for_its_inbox() {
    let (_key, pem) = fresh_key_pem();
    let task = DeliveryTask {
        activity: "{\"type\":\"Create\"}".to_string(),
        inbox: signing_dest(),
        actor_id: "https://home.example/u/alice".to_string(),
        private_key: pem,
        created_at: 0,
        attempts: 0,
        state: TaskState::InFlight,
        next_eligible: 0,
    };
    let date = "Mon, 07 Nov 1994 08:49:37 GMT".to_string();
    let headers = sign_task(&task, &date).expect("signing");
    assert!(headers
        .signature
        .starts_with("keyId=\"https://home.example/u/alice#main-key\""));
    assert_eq!(headers.digest, digest_header("{\"type\":\"Create\"}"));
}

#[test]
fn test_generate_activity_id_shape() {
    let settings = FederationSettings {
        enabled: true,
        hostname: "home.example".to_string(),
        tls_enabled: true,
        blocked_hosts: vec![],
    };
    let id = generate_activity_id(&settings, "Like");
    let prefix = "https://home.example/activities/like/";
    assert!(id.starts_with(prefix));
    let uuid_part = &id[prefix.len()..];
    assert_eq!(uuid_part.len(), 36);
    for (i, c) in uuid_part.chars().enumerate() {
        if i == 8 || i == 13 || i == 18 || i == 23 {
            assert_eq!(c, '-');
        } else {
            assert!(c.is_ascii_hexdigit() && !c.is_ascii_uppercase());
        }
    }
    let other = generate_activity_id(&settings, "Like");
    assert_ne!(id, other);

    let plain = FederationSettings {
        enabled: true,
        hostname: "home.example".to_string(),
        tls_enabled: false,
        blocked_hosts: vec![],
    };
    assert!(generate_activity_id(&plain, "Dislike")
        .starts_with("http://home.example/activities/dislike/"));
}

#[test]
fn test_policy_check_details() {
    let settings = FederationSettings {
        enabled: true,
        hostname: "home.example".to_string(),
        tls_enabled: true,
        blocked_hosts: vec!["evil.example".to_string()],
    };
    let good = signing_dest();
    assert!(check_is_apub_id_valid(&good, &settings).is_ok());
    let mut blocked = signing_dest();
    blocked.host = "evil.example".to_string();
    assert_eq!(
        check_is_apub_id_valid(&blocked, &settings),
        Err(FederationError::InvalidDestination)
    );
    let mut wrong_scheme = signing_dest();
    wrong_scheme.scheme = "http".to_string();
    assert_eq!(
        check_is_apub_id_valid(&wrong_scheme, &settings),
        Err(FederationError::InvalidDestination)
    );
}

#[test]
fn test_error_classification() {
    assert!(!FederationError::MissingKeyMaterial.retryable());
    assert!(!FederationError::InvalidDestination.retryable());
    assert!(FederationError::SigningError.retryable());
    assert!(FederationError::DeliveryFailure.retryable());
    assert_eq!(FederationError::MissingKeyMaterial.label(), "missing key material");
    assert_eq!(FederationError::DeliveryFailure.label(), "delivery failure");
}
