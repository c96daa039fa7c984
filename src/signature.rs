use vstd::prelude::*;
use crate::error::SigningError;

verus! {

/// Length of every signature of the supported schemes.
pub const SIGNATURE_LENGTH: usize = 64;

/// The signature schemes a sponsor signature may use.
#[derive(Debug, Clone, Copy, PartialEq, Eq, Structural)]
pub enum SignatureScheme {
    Ed25519,
    Secp256k1,
    Secp256r1,
}

/// The flag byte that leads the flat encoding of a signature of `s`.
pub open spec fn flag_of(s: SignatureScheme) -> u8 {
    match s {
        SignatureScheme::Ed25519 => 0u8,
        SignatureScheme::Secp256k1 => 1u8,
        SignatureScheme::Secp256r1 => 2u8,
    }
}

/// The scheme that the flag byte `f` stands for, if any.
pub open spec fn scheme_of_flag(f: u8) -> Option<SignatureScheme> {
    if f == 0 {
        Some(SignatureScheme::Ed25519)
    } else if f == 1 {
        Some(SignatureScheme::Secp256k1)
    } else if f == 2 {
        Some(SignatureScheme::Secp256r1)
    } else {
        None
    }
}

/// Length of a public key of scheme `s`.
pub open spec fn public_key_len(s: SignatureScheme) -> nat {
    match s {
        SignatureScheme::Ed25519 => 32,
        SignatureScheme::Secp256k1 => 33,
        SignatureScheme::Secp256r1 => 33,
    }
}

/// The flat encoding: flag byte, then signature bytes, then public key bytes.
pub open spec fn signature_bytes(s: SignatureScheme, sig: Seq<u8>, pk: Seq<u8>) -> Seq<u8> {
    seq![flag_of(s)] + sig + pk
}

/// Whether `b` is the flat encoding of a signature of a known scheme.
pub open spec fn is_signature_encoding(b: Seq<u8>) -> bool {
    &&& b.len() >= 1
    &&& scheme_of_flag(b[0]) is Some
    &&& b.len() == 1 + SIGNATURE_LENGTH + public_key_len(scheme_of_flag(b[0])->0)
}

/// The scheme named by a valid encoding.
pub open spec fn encoded_scheme(b: Seq<u8>) -> SignatureScheme
    recommends is_signature_encoding(b),
{
    scheme_of_flag(b[0])->0
}

/// The signature bytes of a valid encoding.
pub open spec fn encoded_sig(b: Seq<u8>) -> Seq<u8> {
    b.subrange(1, 1 + SIGNATURE_LENGTH as int)
}

/// The public key bytes of a valid encoding.
pub open spec fn encoded_pk(b: Seq<u8>) -> Seq<u8> {
    b.subrange(1 + SIGNATURE_LENGTH as int, b.len() as int)
}

impl SignatureScheme {
    /// The flag byte of this scheme.
    pub fn flag(&self) -> (r: u8)
        ensures
            r == flag_of(*self),
    {
        match self {
            SignatureScheme::Ed25519 => 0,
            SignatureScheme::Secp256k1 => 1,
            SignatureScheme::Secp256r1 => 2,
        }
    }

    /// The scheme of a flag byte, or `None` for an unknown flag.
    pub fn from_flag_byte(f: u8) -> (r: Option<SignatureScheme>)
        ensures
            r == scheme_of_flag(f),
    {
        if f == 0 {
            Some(SignatureScheme::Ed25519)
        } else if f == 1 {
            Some(SignatureScheme::Secp256k1)
        } else if f == 2 {
            Some(SignatureScheme::Secp256r1)
        } else {
            None
        }
    }

    /// Length of a public key of this scheme.
    pub fn public_key_length(&self) -> (r: usize)
        ensures
            r == public_key_len(*self),
    {
        match self {
            SignatureScheme::Ed25519 => 32,
            SignatureScheme::Secp256k1 => 33,
            SignatureScheme::Secp256r1 => 33,
        }
    }
}

/// A sponsor signature: its scheme, the signature bytes and the signer's
/// public key, enough to check it against an address and a message.
#[derive(Debug, PartialEq, Eq)]
pub struct Signature {
    scheme: SignatureScheme,
    sig: Vec<u8>,
    pk: Vec<u8>,
}

impl View for Signature {
    type V = Seq<u8>;

    /// A signature is seen as its flat encoding.
    open spec fn view(&self) -> Seq<u8> {
        signature_bytes(self.scheme_spec(), self.sig_spec(), self.pk_spec())
    }
}

impl Signature {
    /// The signature and public key have the lengths that the scheme fixes.
    pub open spec fn wf(&self) -> bool {
        &&& self.sig_spec().len() == SIGNATURE_LENGTH
        &&& self.pk_spec().len() == public_key_len(self.scheme_spec())
    }

    pub closed spec fn scheme_spec(&self) -> SignatureScheme {
        self.scheme
    }

    pub closed spec fn sig_spec(&self) -> Seq<u8> {
        self.sig@
    }

    pub closed spec fn pk_spec(&self) -> Seq<u8> {
        self.pk@
    }

    /// Builds a signature from its parts.
    pub fn new(scheme: SignatureScheme, sig: Vec<u8>, pk: Vec<u8>) -> (r: Signature)
        requires
            sig@.len() == SIGNATURE_LENGTH,
            pk@.len() == public_key_len(scheme),
        ensures
            r.wf(),
            r.scheme_spec() == scheme,
            r.sig_spec() == sig@,
            r.pk_spec() == pk@,
    {
        Signature { scheme, sig, pk }
    }

    pub fn scheme(&self) -> (r: SignatureScheme)
        ensures
            r == self.scheme_spec(),
    {
        self.scheme
    }

    pub fn signature_bytes(&self) -> (r: &Vec<u8>)
        ensures
            r@ == self.sig_spec(),
    {
        &self.sig
    }

    pub fn public_key_bytes(&self) -> (r: &Vec<u8>)
        ensures
            r@ == self.pk_spec(),
    {
        &self.pk
    }

    /// The flat encoding: flag byte, signature bytes, public key bytes.
    pub fn to_bytes(&self) -> (r: Vec<u8>)
        ensures
            r@ == self@,
    {
        let mut out: Vec<u8> = Vec::new();
        out.push(self.scheme.flag());
        let mut i: usize = 0;
        while i < self.sig.len()
            invariant
                i <= self.sig@.len(),
                out@ == seq![flag_of(self.scheme)] + self.sig@.subrange(0, i as int),
            decreases self.sig@.len() - i,
        {
            out.push(self.sig[i]);
            i = i + 1;
        }
        let mut j: usize = 0;
        while j < self.pk.len()
            invariant
                j <= self.pk@.len(),
                out@ == seq![flag_of(self.scheme)] + self.sig@ + self.pk@.subrange(0, j as int),
            decreases self.pk@.len() - j,
        {
            out.push(self.pk[j]);
            j = j + 1;
        }
        proof {
            assert(self.sig@.subrange(0, self.sig@.len() as int) == self.sig@);
            assert(self.pk@.subrange(0, self.pk@.len() as int) == self.pk@);
        }
        out
    }

    /// Parses a flat encoding. It fails with `InvalidSignatureEncoding`
    /// exactly when the flag is unknown or the length does not fit the scheme.
    pub fn from_bytes(bytes: &[u8]) -> (r: Result<Signature, SigningError>)
        ensures
            r is Ok <==> is_signature_encoding(bytes@),
            r is Err ==> r == Err::<Signature, SigningError>(SigningError::InvalidSignatureEncoding),
            r matches Ok(s) ==> {
                &&& s.wf()
                &&& s.scheme_spec() == encoded_scheme(bytes@)
                &&& s.sig_spec() == encoded_sig(bytes@)
                &&& s.pk_spec() == encoded_pk(bytes@)
                &&& s@ == bytes@
            },
    {
        if bytes.len() == 0 {
            return Err(SigningError::InvalidSignatureEncoding);
        }
        let scheme = match SignatureScheme::from_flag_byte(bytes[0]) {
            Some(s) => s,
            None => {
                return Err(SigningError::InvalidSignatureEncoding);
            },
        };
        let pk_len = scheme.public_key_length();
        if bytes.len() != 1 + SIGNATURE_LENGTH + pk_len {
            return Err(SigningError::InvalidSignatureEncoding);
        }
        let sig = copy_range(bytes, 1, 1 + SIGNATURE_LENGTH);
        let pk = copy_range(bytes, 1 + SIGNATURE_LENGTH, bytes.len());
        proof {
            assert(signature_bytes(scheme, sig@, pk@) =~= bytes@);
        }
        Ok(Signature { scheme, sig, pk })
    }
}

/// A copy of `b[lo..hi]`.
fn copy_range(b: &[u8], lo: usize, hi: usize) -> (r: Vec<u8>)
    requires
        lo <= hi <= b@.len(),
    ensures
        r@ == b@.subrange(lo as int, hi as int),
{
    let mut out: Vec<u8> = Vec::new();
    let mut i: usize = lo;
    while i < hi
        invariant
            lo <= i <= hi <= b@.len(),
            out@ == b@.subrange(lo as int, i as int),
        decreases hi - i,
    {
        out.push(b[i]);
        i = i + 1;
    }
    out
}

/// Decoding the encoding of a well-formed signature gives back its scheme,
/// signature bytes and public key bytes.
pub proof fn lemma_signature_round_trip(s: Signature)
    requires
        s.wf(),
    ensures
        is_signature_encoding(s@),
        encoded_scheme(s@) == s.scheme_spec(),
        encoded_sig(s@) == s.sig_spec(),
        encoded_pk(s@) == s.pk_spec(),
{
    let b = s@;
    assert(b[0] == flag_of(s.scheme));
    assert(encoded_sig(b) =~= s.sig@);
    assert(encoded_pk(b) =~= s.pk@);
}

/// Encoding what a valid byte sequence decodes to gives back those bytes.
pub proof fn lemma_bytes_round_trip(b: Seq<u8>)
    requires
        is_signature_encoding(b),
    ensures
        signature_bytes(encoded_scheme(b), encoded_sig(b), encoded_pk(b)) == b,
        encoded_sig(b).len() == SIGNATURE_LENGTH,
        encoded_pk(b).len() == public_key_len(encoded_scheme(b)),
{
    assert(flag_of(encoded_scheme(b)) == b[0]);
    assert(signature_bytes(encoded_scheme(b), encoded_sig(b), encoded_pk(b)) =~= b);
}

} // verus!
