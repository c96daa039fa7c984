use vstd::prelude::*;
use std::sync::Arc;
use crate::address::{address_of_public_key, SuiAddress};
use crate::crypto::{
    blake2b256, blake2b256_of, ed25519_accepts, ed25519_public_key, ed25519_public_key_of,
    ed25519_sign, ed25519_signature_of, ed25519_verify,
};
use crate::error::SigningError;
use crate::intent::{signing_message, signing_message_of, TransactionData};
use crate::signature::{flag_of, is_signature_encoding, signature_bytes, Signature, SignatureScheme};
use crate::wire::{
    from_json_byte_array, json_byte_array, json_byte_array_object, to_json_byte_array_object,
};

verus! {

/// What every signing backend offers: its sponsor address, and the check
/// that a caller-asserted address is that address.
pub trait TxSigner {
    /// The sponsor address of this backend.
    spec fn address_spec(&self) -> Seq<u8>;

    /// The sponsor address of this backend.
    fn get_address(&self) -> (r: SuiAddress)
        ensures
            r@ == self.address_spec(),
    ;

    /// Whether `address` is exactly this backend's sponsor address.
    fn is_valid_address(&self, address: &SuiAddress) -> (r: bool)
        ensures
            r == (address@ == self.address_spec()),
    {
        self.get_address().same_as(address)
    }
}

/// Name of the request field that carries the bytes to sign.
pub open spec fn tx_bytes_key() -> Seq<char> {
    seq!['t', 'x', 'B', 'y', 't', 'e', 's']
}

/// Whether an HTTP status code reports success.
pub open spec fn is_success_status(status: u16) -> bool {
    200 <= status < 300
}

/// The result of a remote signing exchange that ended with `status` and
/// `body`: the encoding of the signature it yields, or the error.
pub open spec fn sidecar_outcome(status: u16, body: Seq<u8>) -> Result<Seq<u8>, SigningError> {
    if !is_success_status(status) {
        Err(SigningError::NetworkError)
    } else {
        match json_byte_array(body) {
            None => Err(SigningError::InvalidSignatureEncoding),
            Some(b) => if is_signature_encoding(b) {
                Ok(b)
            } else {
                Err(SigningError::InvalidSignatureEncoding)
            },
        }
    }
}

/// A backend that asks a remote signing service for each signature. It holds
/// no key, only the service's URL and the sponsor address.
pub struct SidecarTxSigner {
    sponsor_address: SuiAddress,
    sidecar_url: String,
}

impl SidecarTxSigner {
    pub closed spec fn url_spec(&self) -> Seq<char> {
        self.sidecar_url@
    }

    /// A backend for the service at `sidecar_url`, signing as `sponsor_address`.
    pub fn new(sponsor_address: SuiAddress, sidecar_url: String) -> (r: Arc<Self>)
        ensures
            r.address_spec() == sponsor_address@,
            r.url_spec() == sidecar_url@,
    {
        Arc::new(SidecarTxSigner { sponsor_address, sidecar_url })
    }

    /// The URL of the signing service.
    pub fn sidecar_url(&self) -> (r: &String)
        ensures
            r@ == self.url_spec(),
    {
        &self.sidecar_url
    }

    /// The JSON body of the request that asks for a signature of `tx`: one
    /// field, `txBytes`, holding the intent-wrapped encoding of `tx` as an
    /// array of bytes.
    pub fn request_body(&self, tx: &TransactionData) -> (r: Vec<u8>)
        ensures
            r@ == json_byte_array_object(tx_bytes_key(), signing_message(tx@)),
    {
        let message = signing_message_of(tx);
        let key = "txBytes";
        proof {
            reveal_strlit("txBytes");
            assert(key@ =~= tx_bytes_key());
        }
        to_json_byte_array_object(key, message.as_slice())
    }

    /// The signature carried by the service's answer: `NetworkError` for a
    /// non-success status; `InvalidSignatureEncoding` when the body is not a
    /// JSON array of bytes, or those bytes are not a signature of a known
    /// scheme.
    pub fn signature_from_response(status: u16, body: &[u8]) -> (r: Result<Signature, SigningError>)
        ensures
            r is Ok <==> sidecar_outcome(status, body@) is Ok,
            r matches Err(e) ==> sidecar_outcome(status, body@) == Err::<Seq<u8>, SigningError>(e),
            r matches Ok(s) ==> s.wf() && sidecar_outcome(status, body@) == Ok::<Seq<u8>, SigningError>(s@),
    {
        if status < 200 || status >= 300 {
            return Err(SigningError::NetworkError);
        }
        match from_json_byte_array(body) {
            Err(_) => Err(SigningError::InvalidSignatureEncoding),
            Ok(bytes) => Signature::from_bytes(bytes.as_slice()),
        }
    }
}

impl TxSigner for SidecarTxSigner {
    closed spec fn address_spec(&self) -> Seq<u8> {
        self.sponsor_address@
    }

    fn get_address(&self) -> (r: SuiAddress) {
        self.sponsor_address.copy()
    }
}

/// An in-memory Ed25519 key pair: a 32-byte secret key and its public key.
pub struct SuiKeyPair {
    seed: Vec<u8>,
    public: Vec<u8>,
}

impl SuiKeyPair {
    pub closed spec fn seed_spec(&self) -> Seq<u8> {
        self.seed@
    }

    /// The secret key has 32 bytes and the public key is the one it gives.
    #[verifier::type_invariant]
    pub closed spec fn wf(&self) -> bool {
        &&& self.seed@.len() == 32
        &&& self.public@ == ed25519_public_key_of(self.seed@)
        &&& self.public@.len() == 32
    }

    /// The key pair of a 32-byte secret key, or `None` for any other length.
    pub fn from_seed(seed: Vec<u8>) -> (r: Option<SuiKeyPair>)
        ensures
            r is Some <==> seed@.len() == 32,
            r matches Some(k) ==> k.seed_spec() == seed@,
    {
        if seed.len() != 32 {
            return None;
        }
        let public = ed25519_public_key(seed.as_slice());
        Some(SuiKeyPair { seed, public })
    }

    /// The public key.
    pub fn public(&self) -> (r: &[u8])
        ensures
            r@ == ed25519_public_key_of(self.seed_spec()),
            r@.len() == 32,
    {
        proof {
            use_type_invariant(self);
        }
        self.public.as_slice()
    }

    /// Signs `msg` with the secret key.
    fn sign(&self, msg: &[u8]) -> (r: Vec<u8>)
        ensures
            r@ == ed25519_signature_of(self.seed_spec(), msg@),
            r@.len() == 64,
    {
        proof {
            use_type_invariant(self);
        }
        ed25519_sign(self.seed.as_slice(), msg)
    }
}

/// The address of the holder of the Ed25519 secret key `seed`.
pub open spec fn ed25519_address(seed: Seq<u8>) -> Seq<u8> {
    address_of_public_key(flag_of(SignatureScheme::Ed25519), ed25519_public_key_of(seed))
}

/// The encoding of the signature that the secret key `seed` gives the
/// transaction encoded as `payload`: an Ed25519 signature of the Blake2b hash
/// of the intent-wrapped payload, with the public key.
pub open spec fn local_signature(seed: Seq<u8>, payload: Seq<u8>) -> Seq<u8> {
    signature_bytes(
        SignatureScheme::Ed25519,
        ed25519_signature_of(seed, blake2b256_of(signing_message(payload))),
        ed25519_public_key_of(seed),
    )
}

/// Whether a signature with scheme `scheme`, signature bytes `sig` and public
/// key `pk` authorizes `msg` on behalf of `address`: the scheme is Ed25519,
/// the key derives `address`, and the signature verifies over the Blake2b
/// hash of `msg`.
pub open spec fn signature_verifies(
    scheme: SignatureScheme,
    sig: Seq<u8>,
    pk: Seq<u8>,
    address: Seq<u8>,
    msg: Seq<u8>,
) -> bool {
    &&& scheme == SignatureScheme::Ed25519
    &&& address == address_of_public_key(flag_of(scheme), pk)
    &&& ed25519_accepts(pk, blake2b256_of(msg), sig)
}

/// Checks `sig` against `address` and the signed bytes `msg`. Only Ed25519
/// signatures can be checked; any other scheme is reported as not verifying.
pub fn verify_signature(sig: &Signature, address: &SuiAddress, msg: &[u8]) -> (r: bool)
    requires
        sig.wf(),
    ensures
        r == signature_verifies(sig.scheme_spec(), sig.sig_spec(), sig.pk_spec(), address@, msg@),
{
    match sig.scheme() {
        SignatureScheme::Ed25519 => {},
        _ => {
            return false;
        },
    }
    let pk = sig.public_key_bytes();
    let derived = SuiAddress::from_public_key(SignatureScheme::Ed25519.flag(), pk.as_slice());
    if !derived.same_as(address) {
        return false;
    }
    let digest = blake2b256(msg);
    ed25519_verify(pk.as_slice(), digest.as_slice(), sig.signature_bytes().as_slice())
}

/// A backend that signs with a key pair held in memory.
pub struct TestTxSigner {
    keypair: SuiKeyPair,
}

impl TestTxSigner {
    pub closed spec fn seed_spec(&self) -> Seq<u8> {
        self.keypair.seed_spec()
    }

    /// A backend signing with `keypair`.
    pub fn new(keypair: SuiKeyPair) -> (r: Arc<Self>)
        ensures
            r.seed_spec() == keypair.seed_spec(),
    {
        Arc::new(TestTxSigner { keypair })
    }

    /// Signs `tx`: the intent-wrapped encoding of `tx` is hashed with
    /// Blake2b and the hash signed with the key pair. It always succeeds.
    pub fn sign_transaction(&self, tx: &TransactionData) -> (r: Result<Signature, SigningError>)
        ensures
            r matches Ok(s) && s.wf() && s.scheme_spec() == SignatureScheme::Ed25519
                && s.sig_spec() == ed25519_signature_of(self.seed_spec(), blake2b256_of(signing_message(tx@)))
                && s.pk_spec() == ed25519_public_key_of(self.seed_spec())
                && s@ == local_signature(self.seed_spec(), tx@),
    {
        let message = signing_message_of(tx);
        let digest = blake2b256(message.as_slice());
        let sig = self.keypair.sign(digest.as_slice());
        let pk = copy_slice(self.keypair.public());
        Ok(Signature::new(SignatureScheme::Ed25519, sig, pk))
    }
}

impl TxSigner for TestTxSigner {
    closed spec fn address_spec(&self) -> Seq<u8> {
        ed25519_address(self.keypair.seed_spec())
    }

    fn get_address(&self) -> (r: SuiAddress) {
        SuiAddress::from_public_key(SignatureScheme::Ed25519.flag(), self.keypair.public())
    }
}

impl TestTxSigner {
    /// The sponsor address is the one derived from the key pair's public key.
    pub proof fn lemma_address_from_key(&self)
        ensures
            self.address_spec() == ed25519_address(self.seed_spec()),
    {
    }
}

/// A signature `s` made by the in-memory backend over the transaction encoded
/// as `payload` passes the check that a remote signer's answer must pass:
/// it is a valid encoding, a remote answer carrying its bytes yields the same
/// signature, and checking it against the backend's address and the
/// intent-wrapped payload comes down to Ed25519 verification of the signature
/// that the key made. Against any other address the check fails.
pub proof fn lemma_local_signature_interchangeable(
    signer: &TestTxSigner,
    payload: Seq<u8>,
    s: Signature,
    body: Seq<u8>,
    other: Seq<u8>,
)
    requires
        s.wf(),
        s.scheme_spec() == SignatureScheme::Ed25519,
        s.sig_spec() == ed25519_signature_of(signer.seed_spec(), blake2b256_of(signing_message(payload))),
        s.pk_spec() == ed25519_public_key_of(signer.seed_spec()),
        json_byte_array(body) == Some(s@),
        other != signer.address_spec(),
    ensures
        is_signature_encoding(s@),
        sidecar_outcome(200, body) == Ok::<Seq<u8>, SigningError>(s@),
        signature_verifies(s.scheme_spec(), s.sig_spec(), s.pk_spec(), signer.address_spec(), signing_message(payload))
            == ed25519_accepts(
            ed25519_public_key_of(signer.seed_spec()),
            blake2b256_of(signing_message(payload)),
            ed25519_signature_of(signer.seed_spec(), blake2b256_of(signing_message(payload))),
        ),
        !signature_verifies(s.scheme_spec(), s.sig_spec(), s.pk_spec(), other, signing_message(payload)),
{
    crate::signature::lemma_signature_round_trip(s);
}

/// A copy of `b`.
fn copy_slice(b: &[u8]) -> (r: Vec<u8>)
    ensures
        r@ == b@,
{
    let mut out: Vec<u8> = Vec::new();
    let mut i: usize = 0;
    while i < b.len()
        invariant
            i <= b@.len(),
            out@ == b@.subrange(0, i as int),
        decreases b@.len() - i,
    {
        out.push(b[i]);
        i = i + 1;
    }
    proof {
        assert(b@.subrange(0, b@.len() as int) == b@);
    }
    out
}

} // verus!
