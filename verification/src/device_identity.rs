//! Ed25519 device identity for gateway pairing.
//!
//! A keypair is generated once per install and signs the gateway's connect
//! challenge. The device id is the SHA-256 of the raw public key in hex; the
//! public key and the signature travel as base64url without padding. The
//! signing seed is stored as base64url text, in the keychain or in a file.
use vstd::prelude::*;
use vstd::utf8::encode_utf8;

use crate::crypto::{
    base64url, base64url_decode, base64url_decoded, base64url_encode, ed25519_public,
    ed25519_signature, generate_seed, hex_encode, hex_text, is_base64url_char, public_key, sha256,
    sha256_digest, sign,
};
use crate::text::{cat, decimal, i64_text, join, joined, signed_decimal, trim, trimmed, usize_text};

verus! {

/// Why a device identity could not be had.
#[derive(Debug, PartialEq)]
pub enum IdentityError {
    Keyring(String),
    Io(String),
    NoHome,
    Malformed(String),
}

/// What [`IdentityError`] holds, as mathematical values.
#[verifier::ext_equal]
pub enum IdentityErrorView {
    Keyring(Seq<char>),
    Io(Seq<char>),
    NoHome,
    Malformed(Seq<char>),
}

impl DeepView for IdentityError {
    type V = IdentityErrorView;

    open spec fn deep_view(&self) -> IdentityErrorView {
        match *self {
            IdentityError::Keyring(a0) => IdentityErrorView::Keyring(a0.deep_view()),
            IdentityError::Io(a0) => IdentityErrorView::Io(a0.deep_view()),
            IdentityError::NoHome => IdentityErrorView::NoHome,
            IdentityError::Malformed(a0) => IdentityErrorView::Malformed(a0.deep_view()),
        }
    }
}

impl Clone for IdentityError {
    fn clone(&self) -> (r: IdentityError)
        ensures
            r.deep_view() == self.deep_view(),
    {
        match self {
            IdentityError::Keyring(a0) => IdentityError::Keyring(a0.clone()),
            IdentityError::Io(a0) => IdentityError::Io(a0.clone()),
            IdentityError::NoHome => IdentityError::NoHome,
            IdentityError::Malformed(a0) => IdentityError::Malformed(a0.clone()),
        }
    }
}

impl IdentityError {
    /// What the operator is told.
    pub open spec fn told(e: IdentityErrorView) -> Seq<char> {
        match e {
            IdentityErrorView::Keyring(s) => "keyring: "@ + s,
            IdentityErrorView::Io(s) => "io: "@ + s,
            IdentityErrorView::NoHome => "no home directory available"@,
            IdentityErrorView::Malformed(s) => "stored device key is malformed: "@ + s,
        }
    }

    /// The error in words.
    pub fn message(&self) -> (r: String)
        ensures
            r@ == IdentityError::told(self.deep_view()),
    {
        match self {
            IdentityError::Keyring(s) => cat("keyring: ", s.as_str()),
            IdentityError::Io(s) => cat("io: ", s.as_str()),
            IdentityError::NoHome => "no home directory available".to_owned(),
            IdentityError::Malformed(s) => cat("stored device key is malformed: ", s.as_str()),
        }
    }
}

/// A device identity. The public half is always derived from the seed: every
/// identity [is one of its seed](DeviceIdentity::wf).
pub struct DeviceIdentity {
    device_id: String,
    public_key_raw: [u8; 32],
    seed: [u8; 32],
}

/// What the connect challenge is signed over.
#[derive(Debug)]
pub struct SignConnectParams {
    pub client_id: String,
    pub client_mode: String,
    pub role: String,
    pub scopes: Vec<String>,
    pub token: Option<String>,
    pub nonce: String,
    pub signed_at_ms: i64,
}

/// What [`SignConnectParams`] holds, as mathematical values.
#[verifier::ext_equal]
pub struct SignConnectParamsView {
    pub client_id: Seq<char>,
    pub client_mode: Seq<char>,
    pub role: Seq<char>,
    pub scopes: Seq<Seq<char>>,
    pub token: Option<Seq<char>>,
    pub nonce: Seq<char>,
    pub signed_at_ms: i64,
}

impl DeepView for SignConnectParams {
    type V = SignConnectParamsView;

    open spec fn deep_view(&self) -> SignConnectParamsView {
        SignConnectParamsView {
            client_id: self.client_id.deep_view(),
            client_mode: self.client_mode.deep_view(),
            role: self.role.deep_view(),
            scopes: self.scopes.deep_view(),
            token: self.token.deep_view(),
            nonce: self.nonce.deep_view(),
            signed_at_ms: self.signed_at_ms.deep_view(),
        }
    }
}

impl Clone for SignConnectParams {
    fn clone(&self) -> (r: SignConnectParams)
        ensures
            r.deep_view() == self.deep_view(),
    {
        let r = SignConnectParams {
            client_id: self.client_id.clone(),
            client_mode: self.client_mode.clone(),
            role: self.role.clone(),
            scopes: self.scopes.clone(),
            token: self.token.clone(),
            nonce: self.nonce.clone(),
            signed_at_ms: self.signed_at_ms,
        };
        assert(r.scopes.deep_view() =~= self.scopes.deep_view());
        r
    }
}

/// A signed connect challenge, with the time that went into it.
#[derive(Debug)]
pub struct SignedConnect {
    pub signature_base64url: String,
    pub signed_at_ms: i64,
}

/// What [`SignedConnect`] holds, as mathematical values.
#[verifier::ext_equal]
pub struct SignedConnectView {
    pub signature_base64url: Seq<char>,
    pub signed_at_ms: i64,
}

impl DeepView for SignedConnect {
    type V = SignedConnectView;

    open spec fn deep_view(&self) -> SignedConnectView {
        SignedConnectView {
            signature_base64url: self.signature_base64url.deep_view(),
            signed_at_ms: self.signed_at_ms.deep_view(),
        }
    }
}

impl Clone for SignedConnect {
    fn clone(&self) -> (r: SignedConnect)
        ensures
            r.deep_view() == self.deep_view(),
    {
        SignedConnect {
            signature_base64url: self.signature_base64url.clone(),
            signed_at_ms: self.signed_at_ms,
        }
    }
}

/// Whether `s` is 64 lowercase hex digits.
pub open spec fn is_device_id(s: Seq<char>) -> bool {
    s.len() == 64 && forall|i: int|
        0 <= i < 64 ==> {
            let c = #[trigger] s[i];
            '0' <= c <= '9' || 'a' <= c <= 'f'
        }
}

/// The id of the device with a public key.
pub open spec fn device_id_for(public: Seq<u8>) -> Seq<char> {
    hex_text(sha256_digest(public))
}

/// The text that is signed to answer a challenge: nine fields with a bar
/// between each two.
pub open spec fn challenge_text(device_id: Seq<char>, p: SignConnectParamsView) -> Seq<char> {
    joined(
        seq![
            "v2"@,
            device_id,
            p.client_id,
            p.client_mode,
            p.role,
            joined(p.scopes, ","@),
            signed_decimal(p.signed_at_ms as int),
            match p.token {
                Some(t) => t,
                None => ""@,
            },
            p.nonce,
        ],
        "|"@,
    )
}

/// The answer to a challenge.
pub open spec fn answer_to(
    seed: Seq<u8>,
    device_id: Seq<char>,
    p: SignConnectParamsView,
) -> SignedConnectView {
    SignedConnectView {
        signature_base64url: base64url(
            ed25519_signature(seed, encode_utf8(challenge_text(device_id, p))),
        ),
        signed_at_ms: p.signed_at_ms,
    }
}

impl DeviceIdentity {
    /// The signing seed.
    pub closed spec fn seed_bytes(&self) -> Seq<u8> {
        self.seed@
    }

    /// The device id.
    pub closed spec fn id_text(&self) -> Seq<char> {
        self.device_id@
    }

    /// The raw public key.
    pub closed spec fn public_bytes(&self) -> Seq<u8> {
        self.public_key_raw@
    }

    /// The public half belongs to the seed.
    pub open spec fn wf(&self) -> bool {
        &&& self.seed_bytes().len() == 32
        &&& self.public_bytes() == ed25519_public(self.seed_bytes())
        &&& self.public_bytes().len() == 32
        &&& self.id_text() == device_id_for(self.public_bytes())
        &&& is_device_id(self.id_text())
    }

    #[verifier::type_invariant]
    spec fn public_half_belongs(self) -> bool {
        self.wf()
    }

    /// The identity of a signing seed.
    pub fn from_signing_key(seed: [u8; 32]) -> (r: DeviceIdentity)
        ensures
            r.wf(),
            r.seed_bytes() == seed@,
    {
        let public_key_raw = public_key(&seed);
        let device_id = fingerprint(&public_key_raw);
        DeviceIdentity { device_id, public_key_raw, seed }
    }

    /// SHA-256 of the raw public key, in lowercase hex.
    pub fn device_id(&self) -> (r: &str)
        ensures
            r@ == self.id_text(),
            self.wf(),
    {
        proof {
            use_type_invariant(self);
        }
        self.device_id.as_str()
    }

    /// The raw public key.
    pub fn public_key_raw(&self) -> (r: [u8; 32])
        ensures
            r@ == self.public_bytes(),
            self.wf(),
    {
        proof {
            use_type_invariant(self);
        }
        self.public_key_raw
    }

    /// The public key as the gateway expects it.
    pub fn public_key_base64url(&self) -> (r: String)
        ensures
            r@ == base64url(self.public_bytes()),
            r@.len() == 43,
            forall|i: int| 0 <= i < r@.len() ==> is_base64url_char(#[trigger] r@[i]),
    {
        base64url_encode(self.public_key_raw.as_slice())
    }

    /// The text under which the seed is stored.
    pub fn stored_key(&self) -> (r: String)
        ensures
            r@ == base64url(self.seed_bytes()),
            decoded_seed(r@) == Ok::<Seq<u8>, IdentityErrorView>(self.seed_bytes()),
    {
        base64url_encode(self.seed.as_slice())
    }

    /// Signs a connect challenge. The time used comes back with the signature,
    /// since the caller has to send the same one.
    pub fn sign_connect(&self, params: &SignConnectParams) -> (r: SignedConnect)
        ensures
            r.deep_view() == answer_to(self.seed_bytes(), self.id_text(), params.deep_view()),
    {
        let mut parts: Vec<String> = Vec::new();
        parts.push("v2".to_owned());
        parts.push(self.device_id.clone());
        parts.push(params.client_id.clone());
        parts.push(params.client_mode.clone());
        parts.push(params.role.clone());
        parts.push(join(&params.scopes, ","));
        parts.push(i64_text(params.signed_at_ms));
        parts.push(
            match &params.token {
                Some(t) => t.clone(),
                None => "".to_owned(),
            },
        );
        parts.push(params.nonce.clone());
        let payload = join(&parts, "|");
        proof {
            let p = params.deep_view();
            assert(parts.deep_view() =~= seq![
                "v2"@,
                self.id_text(),
                p.client_id,
                p.client_mode,
                p.role,
                joined(p.scopes, ","@),
                signed_decimal(p.signed_at_ms as int),
                match p.token {
                    Some(t) => t,
                    None => ""@,
                },
                p.nonce,
            ]);
        }
        let signature = sign(&self.seed, payload.as_str().as_bytes());
        SignedConnect {
            signature_base64url: base64url_encode(signature.as_slice()),
            signed_at_ms: params.signed_at_ms,
        }
    }

    /// The identity that the stores give, or a fresh one. The keychain's entry
    /// goes before the file's; a malformed entry is an error, not a miss. The
    /// second result says whether the identity is fresh and has to be stored.
    pub fn load_or_create(keychain: Option<&str>, file: Option<&str>) -> (r: Result<
        (DeviceIdentity, bool),
        IdentityError,
    >)
        ensures
            match r {
                Ok((identity, fresh)) => {
                    &&& identity.wf()
                    &&& fresh == (keychain is None && file is None)
                    &&& !fresh ==> stored_seed(keychain.deep_view(), file.deep_view()) == Some(
                        Ok::<Seq<u8>, IdentityErrorView>(identity.seed_bytes()),
                    )
                },
                Err(e) => stored_seed(keychain.deep_view(), file.deep_view()) == Some(
                    Err::<Seq<u8>, IdentityErrorView>(e.deep_view()),
                ),
            },
    {
        let decoded = match (keychain, file) {
            (Some(text), _) => decode_signing_key(text),
            (None, Some(raw)) => {
                let text = trim(raw);
                decode_signing_key(text.as_str())
            },
            (None, None) => {
                return Ok((DeviceIdentity::from_signing_key(generate_seed()), true));
            },
        };
        match decoded {
            Ok(seed) => Ok((DeviceIdentity::from_signing_key(seed), false)),
            Err(e) => Err(e),
        }
    }
}

/// What the stores hold: the keychain's text as it is, else the file's without
/// the white space around it.
pub open spec fn stored_seed(keychain: Option<Seq<char>>, file: Option<Seq<char>>) -> Option<
    Result<Seq<u8>, IdentityErrorView>,
> {
    match keychain {
        Some(t) => Some(decoded_seed(t)),
        None => match file {
            Some(raw) => Some(decoded_seed(trimmed(raw))),
            None => None,
        },
    }
}

/// The lowercase hex of the public key's digest.
pub fn fingerprint(public_key_raw: &[u8; 32]) -> (r: String)
    ensures
        r@ == device_id_for(public_key_raw@),
        is_device_id(r@),
{
    let digest = sha256(public_key_raw.as_slice());
    hex_encode(digest.as_slice())
}

/// The seed that a stored text stands for: what it decodes to, if that is 32
/// bytes.
pub open spec fn decoded_seed(text: Seq<char>) -> Result<Seq<u8>, IdentityErrorView> {
    match base64url_decoded(text) {
        Ok(bytes) => if bytes.len() == 32 {
            Ok(bytes)
        } else {
            Err(
                IdentityErrorView::Malformed(
                    "expected 32 bytes, got "@ + decimal(bytes.len()),
                ),
            )
        },
        Err(e) => Err(IdentityErrorView::Malformed("base64 decode: "@ + e)),
    }
}

/// Reads a stored signing seed.
pub fn decode_signing_key(seed_b64url: &str) -> (r: Result<[u8; 32], IdentityError>)
    ensures
        match r {
            Ok(seed) => decoded_seed(seed_b64url@) == Ok::<Seq<u8>, IdentityErrorView>(seed@),
            Err(e) => decoded_seed(seed_b64url@) == Err::<Seq<u8>, IdentityErrorView>(
                e.deep_view(),
            ),
        },
{
    match base64url_decode(seed_b64url) {
        Ok(bytes) => seed_from(&bytes),
        Err(e) => Err(IdentityError::Malformed(cat("base64 decode: ", e.as_str()))),
    }
}

/// The seed that decoded bytes are, if there are 32 of them.
pub fn seed_from(bytes: &Vec<u8>) -> (r: Result<[u8; 32], IdentityError>)
    ensures
        match r {
            Ok(seed) => bytes@.len() == 32 && seed@ == bytes@,
            Err(e) => bytes@.len() != 32 && e.deep_view() == IdentityErrorView::Malformed(
                "expected 32 bytes, got "@ + decimal(bytes@.len()),
            ),
        },
{
    if bytes.len() != 32 {
        let n = usize_text(bytes.len());
        return Err(IdentityError::Malformed(cat("expected 32 bytes, got ", n.as_str())));
    }
    let mut seed: [u8; 32] = [0u8; 32];
    let mut i: usize = 0;
    while i < 32
        invariant
            i <= 32,
            bytes@.len() == 32,
            forall|k: int| 0 <= k < i ==> seed@[k] == bytes@[k],
        decreases 32 - i,
    {
        seed[i] = bytes[i];
        i = i + 1;
    }
    assert(seed@ =~= bytes@);
    Ok(seed)
}

} // verus!
