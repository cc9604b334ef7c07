use ed25519_dalek::{Keypair, PublicKey, SecretKey, Sha512, Signature, SignatureError};
use ed25519_dalek::{Digest, Signer, Verifier};
use rand::rngs::OsRng;
use vstd::prelude::*;

verus! {

#[verifier::external_type_specification]
#[verifier::external_body]
pub struct ExPublicKey(PublicKey);

#[verifier::external_type_specification]
#[verifier::external_body]
pub struct ExKeypair(Keypair);

#[verifier::external_type_specification]
#[verifier::external_body]
pub struct ExSecretKey(SecretKey);

#[verifier::external_type_specification]
#[verifier::external_body]
pub struct ExSignature(Signature);

#[verifier::external_type_specification]
#[verifier::external_body]
pub struct ExSignatureError(SignatureError);

#[verifier::external_type_specification]
#[verifier::external_body]
pub struct ExSha512(Sha512);

/// Whether 32 bytes are the compressed encoding of a point on the Edwards curve
/// (the point decompression of `ed25519_dalek`).
pub uninterp spec fn ed25519_point_valid(encoded: Seq<u8>) -> bool;

/// Whether `signature` is a valid Ed25519 signature of `message` under the
/// encoded public key `public`.
pub uninterp spec fn ed25519_verify(public: Seq<u8>, message: Seq<u8>, signature: Seq<u8>) -> bool;

/// The deterministic Ed25519 signature of `message` by the 64-byte keypair
/// encoding `keypair` (secret half, then public half).
pub uninterp spec fn ed25519_sign(keypair: Seq<u8>, message: Seq<u8>) -> Seq<u8>;

/// Whether 64 bytes are accepted as an Ed25519 signature encoding: the three top
/// bits of the last byte must be clear.
pub open spec fn signature_bytes_valid(b: Seq<u8>) -> bool {
    b.len() == 64 && b[63] < 32
}

/// Whether 64 bytes are accepted as a keypair encoding: any secret half, and a
/// public half that decompresses.
pub open spec fn keypair_bytes_valid(b: Seq<u8>) -> bool {
    b.len() == 64 && ed25519_point_valid(b.subrange(32, 64))
}

/// An Ed25519 public key together with the 32 bytes it was read from.
pub struct VerifyingKey {
    key: PublicKey,
    encoded: Ghost<Seq<u8>>,
}

impl View for VerifyingKey {
    type V = Seq<u8>;

    closed spec fn view(&self) -> Seq<u8> {
        self.encoded@
    }
}

/// An Ed25519 signature together with its 64 bytes.
pub struct SignatureValue {
    signature: Signature,
    encoded: Ghost<Seq<u8>>,
}

impl View for SignatureValue {
    type V = Seq<u8>;

    closed spec fn view(&self) -> Seq<u8> {
        self.encoded@
    }
}

/// An Ed25519 keypair together with its 64-byte encoding.
pub struct SigningKeypair {
    pair: Keypair,
    encoded: Ghost<Seq<u8>>,
}

impl View for SigningKeypair {
    type V = Seq<u8>;

    closed spec fn view(&self) -> Seq<u8> {
        self.encoded@
    }
}

impl SigningKeypair {
    /// Reads a keypair from its 64-byte encoding (secret half, then public half).
    pub fn from_key_bytes(bytes: &[u8]) -> (r: Option<SigningKeypair>)
        ensures
            r is Some <==> keypair_bytes_valid(bytes@),
            r matches Some(k) ==> k@ == bytes@,
    {
        match keypair_from_bytes(bytes) {
            Ok(k) => Some(k),
            Err(_) => None,
        }
    }
}

/// An Ed25519 secret key together with its 32 bytes.
pub struct SecretKeyValue {
    key: SecretKey,
    encoded: Ghost<Seq<u8>>,
}

impl View for SecretKeyValue {
    type V = Seq<u8>;

    closed spec fn view(&self) -> Seq<u8> {
        self.encoded@
    }
}

impl SecretKeyValue {
    /// The secret key held.
    pub closed spec fn secret(&self) -> SecretKey {
        self.key
    }

    /// The secret key.
    pub fn key(&self) -> (r: &SecretKey)
        ensures
            *r == self.secret(),
    {
        &self.key
    }
}

/// A SHA-512 hasher together with the bytes it has absorbed.
pub struct Sha512State {
    hasher: Sha512,
    absorbed: Ghost<Seq<u8>>,
}

impl View for Sha512State {
    type V = Seq<u8>;

    closed spec fn view(&self) -> Seq<u8> {
        self.absorbed@
    }
}

impl Sha512State {
    /// The hasher held.
    pub closed spec fn state(&self) -> Sha512 {
        self.hasher
    }

    /// The hasher.
    pub fn hasher(&self) -> (r: &Sha512)
        ensures
            *r == self.state(),
    {
        &self.hasher
    }
}

/// `PublicKey::from_bytes`: accepts exactly 32 bytes that decompress to a curve point.
#[verifier::external_body]
pub(crate) fn public_key_from_bytes(bytes: &[u8]) -> (r: Result<VerifyingKey, SignatureError>)
    ensures
        r is Ok <==> (bytes@.len() == 32 && ed25519_point_valid(bytes@)),
        r matches Ok(k) ==> k@ == bytes@,
{
    match PublicKey::from_bytes(bytes) {
        Ok(key) => Ok(VerifyingKey { key, encoded: Ghost(bytes@) }),
        Err(e) => Err(e),
    }
}

/// `Signature::from_bytes` of the `ed25519` crate: accepts exactly 64 bytes whose
/// last byte has its three top bits clear.
#[verifier::external_body]
pub(crate) fn signature_from_bytes(bytes: &[u8]) -> (r: Result<SignatureValue, SignatureError>)
    ensures
        r is Ok <==> signature_bytes_valid(bytes@),
        r matches Ok(s) ==> s@ == bytes@,
{
    match Signature::from_bytes(bytes) {
        Ok(signature) => Ok(SignatureValue { signature, encoded: Ghost(bytes@) }),
        Err(e) => Err(e),
    }
}

/// `PublicKey::verify` (the `Verifier` trait): whether the signature of the message
/// checks under the key.
#[verifier::external_body]
pub(crate) fn public_key_verify(key: &VerifyingKey, message: &[u8], signature: &SignatureValue) -> (r: bool)
    ensures
        r == ed25519_verify(key@, message@, signature@),
{
    key.key.verify(message, &signature.signature).is_ok()
}

/// `Keypair::from_bytes`: 64 bytes, of which the secret half is taken as is and the
/// public half must decompress to a curve point.
#[verifier::external_body]
pub(crate) fn keypair_from_bytes(bytes: &[u8]) -> (r: Result<SigningKeypair, SignatureError>)
    ensures
        r is Ok <==> keypair_bytes_valid(bytes@),
        r matches Ok(k) ==> k@ == bytes@,
{
    match Keypair::from_bytes(bytes) {
        Ok(pair) => Ok(SigningKeypair { pair, encoded: Ghost(bytes@) }),
        Err(e) => Err(e),
    }
}

/// `Keypair::sign` (the `Signer` trait): the deterministic signature of the message.
#[verifier::external_body]
pub(crate) fn keypair_sign(pair: &SigningKeypair, message: &[u8]) -> (r: SignatureValue)
    ensures
        r@ == ed25519_sign(pair@, message@),
{
    SignatureValue { signature: pair.pair.sign(message), encoded: Ghost(ed25519_sign(pair@, message@)) }
}

/// `Keypair::verify` (the `Verifier` trait), which checks with the keypair's public
/// half.
#[verifier::external_body]
pub(crate) fn keypair_verify(pair: &SigningKeypair, message: &[u8], signature: &SignatureValue) -> (r: bool)
    ensures
        r == ed25519_verify(pair@.subrange(32, 64), message@, signature@),
{
    pair.pair.verify(message, &signature.signature).is_ok()
}

/// `Signature::to_bytes`: the 64 bytes of a signature.
#[verifier::external_body]
pub(crate) fn signature_to_bytes(signature: &SignatureValue) -> (r: Vec<u8>)
    ensures
        r@ == signature@,
{
    signature.signature.to_bytes().to_vec()
}

/// `Keypair::generate` with the operating system's generator, returned as its
/// 64-byte encoding (`Keypair::to_bytes`). The bytes are random; the public half is
/// the compression of a curve point, so it decompresses again.
#[verifier::external_body]
pub(crate) fn generate_keypair_bytes() -> (r: Vec<u8>)
    ensures
        keypair_bytes_valid(r@),
{
    Keypair::generate(&mut OsRng {}).to_bytes().to_vec()
}

/// `SecretKey::from_bytes`: accepts exactly 32 bytes and keeps them.
#[verifier::external_body]
pub(crate) fn secret_key_from_bytes(bytes: &[u8]) -> (r: Result<SecretKeyValue, SignatureError>)
    ensures
        r is Ok <==> bytes@.len() == 32,
        r matches Ok(k) ==> k@ == bytes@,
{
    match SecretKey::from_bytes(bytes) {
        Ok(key) => Ok(SecretKeyValue { key, encoded: Ghost(bytes@) }),
        Err(e) => Err(e),
    }
}

/// `Sha512::new` (the `Digest` trait): a hasher that has absorbed nothing.
#[verifier::external_body]
pub(crate) fn sha512_new() -> (r: Sha512State)
    ensures
        r@ == Seq::<u8>::empty(),
{
    Sha512State { hasher: Sha512::new(), absorbed: Ghost(Seq::empty()) }
}

} // verus!
