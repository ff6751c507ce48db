//! The device identity, tokens, and where they are looked for.
use base64::engine::general_purpose::URL_SAFE_NO_PAD;
use base64::Engine;
use ed25519_dalek::{Signer, SigningKey};
use periclaw::config::{
    after_config, after_keychain, after_token_file, gateway_url, instance_id, load_token as first_step,
    try_load_token, ConfigError, TokenStep,
};
use periclaw::device_identity::{
    decode_signing_key, fingerprint, seed_from, DeviceIdentity, IdentityError, SignConnectParams,
};
use periclaw::secret_store::{
    clear_next, clear_token, delete_after_migration, has_token, load_order, load_token, save_token, storage_location_hint, Backend,
};
use sha2::{Digest, Sha256};

#[test]
fn sign_connect_payload_matches_openclaw_v2_shape() {
    let seed = [0u8; 32];
    let ident = DeviceIdentity::from_signing_key(seed);
    let signed = ident.sign_connect(&SignConnectParams {
        client_id: "openclaw-tui".into(),
        client_mode: "ui".into(),
        role: "operator".into(),
        scopes: vec!["operator.read".into()],
        token: Some("tok".into()),
        nonce: "nonce-xyz".into(),
        signed_at_ms: 1776000000000,
    });
    assert!(!signed.signature_base64url.is_empty());
    assert_eq!(signed.signed_at_ms, 1776000000000);

    let payload = format!(
        "v2|{}|openclaw-tui|ui|operator|operator.read|1776000000000|tok|nonce-xyz",
        ident.device_id(),
    );
    let sig = SigningKey::from_bytes(&seed).sign(payload.as_bytes());
    assert_eq!(
        URL_SAFE_NO_PAD.encode(sig.to_bytes()),
        signed.signature_base64url,
        "sign_connect must serialize the exact v2 payload format"
    );
}

#[test]
fn device_id_is_sha256_of_public_key() {
    let seed = [1u8; 32];
    let ident = DeviceIdentity::from_signing_key(seed);
    assert_eq!(ident.device_id().len(), 64);
    assert!(ident.device_id().chars().all(|c| c.is_ascii_hexdigit()));
    let public = SigningKey::from_bytes(&seed).verifying_key().to_bytes();
    assert_eq!(ident.public_key_raw(), public);
    assert_eq!(ident.device_id(), hex::encode(Sha256::digest(public)));
    assert_eq!(fingerprint(&public), ident.device_id());
}

#[test]
fn public_key_base64url_is_43_chars() {
    let seed = [2u8; 32];
    let ident = DeviceIdentity::from_signing_key(seed);
    let encoded = ident.public_key_base64url();
    assert_eq!(encoded.len(), 43, "got {}: {}", encoded.len(), encoded);
    assert!(!encoded.contains('='), "url-safe encoding drops padding");
    assert_eq!(encoded, URL_SAFE_NO_PAD.encode(ident.public_key_raw()));
}

#[test]
fn decode_signing_key_round_trips() {
    let original = [7u8; 32];
    let encoded = URL_SAFE_NO_PAD.encode(original);
    let decoded = decode_signing_key(&encoded).unwrap();
    assert_eq!(decoded, original);
    let ident = DeviceIdentity::from_signing_key(original);
    assert_eq!(ident.stored_key(), encoded);
}

#[test]
fn bad_keys_are_refused() {
    assert!(matches!(
        decode_signing_key("!!!"),
        Err(IdentityError::Malformed(_))
    ));
    assert!(decode_signing_key(&URL_SAFE_NO_PAD.encode([1u8; 31])).is_err());
    assert!(seed_from(&vec![0; 33]).is_err());
    assert_eq!(seed_from(&vec![5; 32]).unwrap(), [5u8; 32]);
}

#[test]
fn a_stored_key_is_used_again() {
    let stored = URL_SAFE_NO_PAD.encode([9u8; 32]);
    let (ident, _) = DeviceIdentity::load_or_create(Some(&stored), None).unwrap();
    assert_eq!(ident.stored_key(), stored);
    let (a, _) = DeviceIdentity::load_or_create(None, None).unwrap();
    let (b, _) = DeviceIdentity::load_or_create(None, None).unwrap();
    assert_ne!(a.device_id(), b.device_id());
}

#[test]
fn the_environment_beats_the_saved_url() {
    assert_eq!(
        gateway_url(Some("wss://env/"), Some("wss://saved/")).as_deref(),
        Some("wss://env/")
    );
    assert_eq!(
        gateway_url(Some("  "), Some("wss://saved/")).as_deref(),
        Some("wss://saved/")
    );
    assert_eq!(gateway_url(None, Some("")), None);
    assert_eq!(gateway_url(None, None), None);
}

#[test]
fn tokens_are_looked_for_in_order() {
    assert_eq!(try_load_token(first_step(Some("tok"))).as_deref(), Some("tok"));
    assert_eq!(first_step(None), TokenStep::ReadFile);
    assert_eq!(
        after_token_file(Ok(Some("filed".into()))),
        TokenStep::Found {
            token: "filed".into(),
            mirror: false
        }
    );
    assert_eq!(after_token_file(Ok(None)), TokenStep::AskKeychain);
    assert_eq!(
        after_keychain(Some("kept".into())),
        TokenStep::Found {
            token: "kept".into(),
            mirror: true
        }
    );
    assert_eq!(after_keychain(None), TokenStep::ReadConfig);
    assert_eq!(
        after_config(Ok(r#"{"gateway":{"auth":{"token":"cfg"}}}"#.into())),
        TokenStep::Found {
            token: "cfg".into(),
            mirror: true
        }
    );
    assert_eq!(
        after_config(Ok("{}".into())),
        TokenStep::Failed(ConfigError::MissingToken)
    );
    assert!(matches!(
        after_config(Ok("{".into())),
        TokenStep::Failed(ConfigError::Parse(_))
    ));
    assert_eq!(
        after_config(Err(ConfigError::NoHome)),
        TokenStep::Failed(ConfigError::NoHome)
    );
    assert_eq!(
        try_load_token(TokenStep::Failed(ConfigError::MissingToken)),
        None
    );
}

#[test]
fn instance_ids_are_kept() {
    let (id, fresh) = instance_id(Some("kept"));
    assert_eq!((id.as_str(), fresh), ("kept", false));
    let (a, fresh) = instance_id(None);
    assert!(fresh);
    assert_eq!(a.len(), 36);
    assert_eq!(a.as_bytes()[14], b'4');
    assert_ne!(a, instance_id(None).0);
}

#[test]
fn debug_builds_prefer_the_file() {
    assert_eq!(save_token(true), Backend::File);
    assert_eq!(save_token(false), Backend::Keychain);
    assert_eq!(load_order(true), (Backend::File, Backend::Keychain));
    assert_eq!(storage_location_hint(false), "OS keychain");
    assert_eq!(
        storage_location_hint(true),
        "on-disk fallback file (debug build)"
    );
    let both = load_token(true, Some("k"), Some("f"));
    assert_eq!(both.token.as_deref(), Some("f"));
    let both = load_token(false, Some("k"), Some("f"));
    assert_eq!(both.token.as_deref(), Some("k"));
    assert_eq!(load_token(false, None, None).token, None);
    assert_eq!(clear_token(), [Backend::Keychain, Backend::File]);
    assert!(has_token(None, Some("t")) && has_token(Some("t"), None));
    assert!(!has_token(None, None));
}

#[test]
fn a_blank_file_is_no_token() {
    for file in [None, Some(""), Some(" \n\t")] {
        for debug in [false, true] {
            assert!(!has_token(None, file));
            assert_eq!(load_token(debug, None, file).token, None);
            assert!(!load_token(debug, None, file).migrate);
            assert!(has_token(Some("k"), file));
        }
    }
}

#[test]
fn a_leftover_file_moves_in_release_builds() {
    let loaded = load_token(false, None, Some(" t\n"));
    assert_eq!((loaded.token.as_deref(), loaded.migrate), (Some("t"), true));
    assert!(delete_after_migration(true));
    assert!(!delete_after_migration(false));
    let loaded = load_token(true, None, Some(" t\n"));
    assert_eq!((loaded.token.as_deref(), loaded.migrate), (Some("t"), false));
    let loaded = load_token(false, Some("k"), Some("t"));
    assert_eq!((loaded.token.as_deref(), loaded.migrate), (Some("k"), false));
}

#[test]
fn clearing_reaches_both_stores() {
    for (keychain_works, file_works) in [(true, true), (true, false), (false, true), (false, false)] {
        let mut keychain = Some("k");
        let mut file = Some("f");
        for _ in 0..2 {
            let mut next = clear_next(None, true);
            while let Some(backend) = next {
                let works = match backend {
                    Backend::Keychain => keychain_works,
                    Backend::File => file_works,
                };
                match backend {
                    Backend::Keychain if works => keychain = None,
                    Backend::File if works => file = None,
                    _ => {}
                }
                next = clear_next(Some(backend), works);
            }
            assert_eq!(keychain.is_none(), keychain_works);
            assert_eq!(file.is_none(), file_works);
        }
        let left = !(keychain_works && file_works);
        assert_eq!(has_token(keychain, file), left);
        assert_eq!(load_token(false, keychain, file).token.is_some(), left);
        assert_eq!(load_token(true, keychain, file).token.is_some(), left);
    }
}
