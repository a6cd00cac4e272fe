//! Crypto framing: each chunk of a file travels as one frame, a fresh random
//! nonce followed by the AES-256-GCM ciphertext of the chunk, which ends in
//! the authentication tag.

use vstd::prelude::*;
use vstd::slice::{slice_subrange, slice_to_vec};
use aes_gcm::aead::{Aead, KeyInit};

verus! {

/// Length of a room key in bytes.
pub const AES_KEY_LEN: usize = 32;

/// Length of the nonce in front of every encrypted frame.
pub const AES_NONCE_LEN: usize = 12;

/// Length of the authentication tag at the end of every encrypted frame.
pub const AES_TAG_LEN: usize = 16;

/// The most that a data-channel frame may hold.
pub const MAX_FRAME_SIZE: usize = 16 * 1024;

/// The longest plaintext that one encryption takes.
pub const MAX_PLAINTEXT_LEN: u64 = 0x10_0000_0000;

/// Why a key or a frame was refused.
#[derive(Clone, Copy, Debug, PartialEq, Eq, Structural)]
pub enum CryptoError {
    /// The key does not have `AES_KEY_LEN` bytes.
    InvalidKeyLength,
    /// The system's random source failed.
    RandomSource,
    /// The plaintext is too long to be encrypted.
    PlaintextTooLong,
    /// The frame is shorter than a nonce.
    FrameTooShort,
    /// The frame does not authenticate under the key.
    Unauthentic,
}

#[verifier::external_type_specification]
#[verifier::external_body]
pub struct ExAeadError(aes_gcm::Error);

#[verifier::external_type_specification]
#[verifier::external_body]
pub struct ExRandomError(getrandom::Error);

/// The AES-256-GCM ciphertext, tag included, of `plain` under `key` and
/// `nonce`, without associated data.
pub uninterp spec fn aes_gcm_seal(key: Seq<u8>, nonce: Seq<u8>, plain: Seq<u8>) -> Seq<u8>;

/// The plaintext that AES-256-GCM decryption under `key` and `nonce`,
/// without associated data, gives for `sealed`, or `None` where `sealed`
/// does not authenticate.
pub uninterp spec fn aes_gcm_open(key: Seq<u8>, nonce: Seq<u8>, sealed: Seq<u8>) -> Option<
    Seq<u8>,
>;

/// Calls `Aes256Gcm::encrypt` of `aes_gcm`, with a cipher made from `key`.
///
/// Trusted: the call succeeds exactly on plaintexts of at most
/// `MAX_PLAINTEXT_LEN` bytes; its result is a function of key, nonce and
/// plaintext, is 16 bytes longer than the plaintext, and decrypts to the
/// plaintext under the same key and nonce.
#[verifier::external_body]
fn aead_encrypt(key: &[u8; 32], nonce: &[u8; 12], plain: &[u8]) -> (result: Result<
    Vec<u8>,
    aes_gcm::Error,
>)
    ensures
        result is Ok <==> plain@.len() <= MAX_PLAINTEXT_LEN,
        result matches Ok(sealed) ==> sealed@ == aes_gcm_seal(key@, nonce@, plain@),
        result matches Ok(sealed) ==> sealed@.len() == plain@.len() + 16,
        result matches Ok(sealed) ==> aes_gcm_open(key@, nonce@, sealed@) == Some(plain@),
{
    let cipher = aes_gcm::Aes256Gcm::new(aes_gcm::Key::<aes_gcm::Aes256Gcm>::from_slice(key));
    cipher.encrypt(aes_gcm::Nonce::from_slice(nonce), plain)
}

/// Calls `Aes256Gcm::decrypt` of `aes_gcm`, with a cipher made from `key`.
///
/// Trusted: the call succeeds exactly where `sealed` authenticates; its
/// result is a function of key, nonce and `sealed`, and a plaintext is 16
/// bytes shorter than what it was sealed in.
#[verifier::external_body]
fn aead_decrypt(key: &[u8; 32], nonce: &[u8], sealed: &[u8]) -> (result: Result<
    Vec<u8>,
    aes_gcm::Error,
>)
    requires
        nonce@.len() == 12,
    ensures
        match result {
            Ok(plain) => aes_gcm_open(key@, nonce@, sealed@) == Some(plain@),
            Err(_) => aes_gcm_open(key@, nonce@, sealed@) is None,
        },
        result matches Ok(plain) ==> sealed@.len() == plain@.len() + 16,
{
    let cipher = aes_gcm::Aes256Gcm::new(aes_gcm::Key::<aes_gcm::Aes256Gcm>::from_slice(key));
    cipher.decrypt(aes_gcm::Nonce::from_slice(nonce), sealed)
}

/// Calls `getrandom::getrandom` on a buffer of `N` bytes.
///
/// Trusted: nothing beyond the type. The bytes differ from call to call.
#[verifier::external_body]
fn random_bytes<const N: usize>() -> (result: Result<[u8; N], getrandom::Error>) {
    let mut bytes = [0u8; N];
    getrandom::getrandom(&mut bytes).map(|_| bytes)
}

/// What decrypting `frame` under `key` gives: the frame's first 12 bytes
/// are the nonce, the rest is the sealed chunk.
pub open spec fn frame_open(key: Seq<u8>, frame: Seq<u8>) -> Option<Seq<u8>> {
    if frame.len() < AES_NONCE_LEN {
        None
    } else {
        aes_gcm_open(
            key,
            frame.subrange(0, AES_NONCE_LEN as int),
            frame.subrange(AES_NONCE_LEN as int, frame.len() as int),
        )
    }
}

/// The frame that carries `plain` under `key` with the given nonce.
pub open spec fn sealed_frame(key: Seq<u8>, nonce: Seq<u8>, plain: Seq<u8>) -> Seq<u8> {
    nonce + aes_gcm_seal(key, nonce, plain)
}

/// Whether `frame` is an encrypted frame for `plain` under `key`, whatever
/// its nonce: it has the length of one, is the sealing of `plain` under its
/// own nonce, and decrypts to `plain`.
pub open spec fn is_frame_of(key: Seq<u8>, plain: Seq<u8>, frame: Seq<u8>) -> bool {
    &&& frame.len() == AES_NONCE_LEN + plain.len() + AES_TAG_LEN
    &&& frame == sealed_frame(key, frame.subrange(0, AES_NONCE_LEN as int), plain)
    &&& frame_open(key, frame) == Some(plain)
}

/// Decrypting an encrypted frame gives back the chunk it was made for, and
/// the frame is longer than the chunk by a nonce and a tag.
pub proof fn lemma_frame_round_trip(key: Seq<u8>, plain: Seq<u8>, frame: Seq<u8>)
    requires
        is_frame_of(key, plain, frame),
    ensures
        frame_open(key, frame) == Some(plain),
        frame.len() == 12 + plain.len() + 16,
{
}

/// A frame shorter than a nonce does not decrypt.
pub proof fn lemma_short_frame_fails(key: Seq<u8>, frame: Seq<u8>)
    requires
        frame.len() < 12,
    ensures
        frame_open(key, frame) is None,
{
}

/// The cipher of a room: AES-256-GCM under the room key.
#[derive(Clone, Copy)]
pub struct FrameCipher {
    key: [u8; 32],
}

impl View for FrameCipher {
    type V = Seq<u8>;

    /// The room key.
    closed spec fn view(&self) -> Seq<u8> {
        self.key@
    }
}

/// Makes the cipher for a room key, which must have `AES_KEY_LEN` bytes.
pub fn build_crypto(key: &[u8]) -> (result: Result<FrameCipher, CryptoError>)
    ensures
        match result {
            Ok(cipher) => key@.len() == AES_KEY_LEN && cipher@ == key@,
            Err(e) => key@.len() != AES_KEY_LEN && e == CryptoError::InvalidKeyLength,
        },
{
    if key.len() != AES_KEY_LEN {
        return Err(CryptoError::InvalidKeyLength);
    }
    let mut bytes = [0u8; 32];
    let mut i: usize = 0;
    while i < 32
        invariant
            i <= 32,
            key@.len() == 32,
            forall|j: int| 0 <= j < i ==> bytes@[j] == key@[j],
        decreases 32 - i,
    {
        bytes[i] = key[i];
        i = i + 1;
    }
    assert(bytes@ =~= key@);
    Ok(FrameCipher { key: bytes })
}

/// The room key that a draw from the system's random source makes: the
/// bytes that were drawn, or the failure of the source.
pub fn key_from_draw(drawn: Result<[u8; 32], getrandom::Error>) -> (result: Result<
    [u8; 32],
    CryptoError,
>)
    ensures
        match drawn {
            Ok(bytes) => result == Ok::<[u8; 32], CryptoError>(bytes),
            Err(_) => result == Err::<[u8; 32], CryptoError>(CryptoError::RandomSource),
        },
{
    match drawn {
        Ok(bytes) => Ok(bytes),
        Err(_) => Err(CryptoError::RandomSource),
    }
}

/// Makes a fresh random room key: 32 bytes drawn from the system's random
/// source. Which bytes they are is left to the source; it is the only thing
/// that can make this fail.
pub fn generate_key() -> (result: Result<[u8; 32], CryptoError>)
    ensures
        result matches Err(e) ==> e == CryptoError::RandomSource,
{
    key_from_draw(random_bytes::<32>())
}

/// The key that the sending side works with: none where encryption is
/// switched off; else the room's key, or a fresh one where the room has
/// none yet.
pub fn sender_room_key(no_encrypt: bool, room_key: Option<Vec<u8>>) -> (result: Result<
    Option<Vec<u8>>,
    CryptoError,
>)
    ensures
        no_encrypt ==> result == Ok::<Option<Vec<u8>>, CryptoError>(None),
        !no_encrypt && room_key is Some ==> result == Ok::<Option<Vec<u8>>, CryptoError>(room_key),
        !no_encrypt && room_key is None ==> match result {
            Ok(key) => (key matches Some(fresh) && fresh@.len() == AES_KEY_LEN),
            Err(e) => e == CryptoError::RandomSource,
        },
{
    if no_encrypt {
        return Ok(None);
    }
    match room_key {
        Some(key) => Ok(Some(key)),
        None => match generate_key() {
            Ok(fresh) => Ok(Some(slice_to_vec(fresh.as_slice()))),
            Err(e) => Err(e),
        },
    }
}

/// The cipher that goes with a key, if there is a key.
pub fn cipher_for(key: &Option<Vec<u8>>) -> (result: Result<Option<FrameCipher>, CryptoError>)
    ensures
        match *key {
            None => result == Ok::<Option<FrameCipher>, CryptoError>(None),
            Some(bytes) => match result {
                Ok(cipher) => bytes@.len() == AES_KEY_LEN && (cipher matches Some(c) && c@
                    == bytes@),
                Err(e) => bytes@.len() != AES_KEY_LEN && e == CryptoError::InvalidKeyLength,
            },
        },
{
    match key {
        None => Ok(None),
        Some(bytes) => match build_crypto(bytes.as_slice()) {
            Ok(cipher) => Ok(Some(cipher)),
            Err(e) => Err(e),
        },
    }
}

impl FrameCipher {
    /// The room key.
    pub fn key(&self) -> (key: &[u8; 32])
        ensures
            key@ == self@,
    {
        &self.key
    }
}

/// Builds the encrypted frame for `plain` with the given nonce: the nonce,
/// then the sealed chunk.
pub fn seal_frame(crypto: &FrameCipher, nonce: &[u8; 12], plain: &[u8]) -> (result: Result<
    Vec<u8>,
    CryptoError,
>)
    ensures
        match result {
            Ok(frame) => plain@.len() <= MAX_PLAINTEXT_LEN && frame@ == sealed_frame(
                crypto@,
                nonce@,
                plain@,
            ) && is_frame_of(crypto@, plain@, frame@),
            Err(e) => plain@.len() > MAX_PLAINTEXT_LEN && e == CryptoError::PlaintextTooLong,
        },
{
    match aead_encrypt(&crypto.key, nonce, plain) {
        Ok(sealed) => {
            let mut sealed = sealed;
            let mut frame = slice_to_vec(nonce.as_slice());
            frame.append(&mut sealed);
            proof {
                let f = frame@;
                assert(f.subrange(0, 12) =~= nonce@);
                assert(f.subrange(12, f.len() as int) =~= aes_gcm_seal(crypto@, nonce@, plain@));
            }
            Ok(frame)
        },
        Err(_) => Err(CryptoError::PlaintextTooLong),
    }
}

/// Encrypts one chunk into a frame, under a nonce drawn from the system's
/// random source.
pub fn encrypt_frame(crypto: &FrameCipher, plain: &[u8]) -> (result: Result<Vec<u8>, CryptoError>)
    ensures
        match result {
            Ok(frame) => is_frame_of(crypto@, plain@, frame@),
            Err(e) => e == CryptoError::RandomSource || (e == CryptoError::PlaintextTooLong
                && plain@.len() > MAX_PLAINTEXT_LEN),
        },
{
    match random_bytes::<12>() {
        Ok(nonce) => seal_frame(crypto, &nonce, plain),
        Err(_) => Err(CryptoError::RandomSource),
    }
}

/// Decrypts one frame into the chunk it carries. A frame shorter than a
/// nonce, and one that does not authenticate under the room key, are refused.
pub fn decrypt_frame(crypto: &FrameCipher, frame: &[u8]) -> (result: Result<Vec<u8>, CryptoError>)
    ensures
        match result {
            Ok(plain) => frame_open(crypto@, frame@) == Some(plain@),
            Err(e) => frame_open(crypto@, frame@) is None && e == if frame@.len()
                < AES_NONCE_LEN {
                CryptoError::FrameTooShort
            } else {
                CryptoError::Unauthentic
            },
        },
        result matches Ok(plain) ==> frame@.len() == AES_NONCE_LEN + plain@.len() + AES_TAG_LEN,
{
    if frame.len() < AES_NONCE_LEN {
        return Err(CryptoError::FrameTooShort);
    }
    let nonce = slice_subrange(frame, 0, AES_NONCE_LEN);
    let sealed = slice_subrange(frame, AES_NONCE_LEN, frame.len());
    match aead_decrypt(&crypto.key, nonce, sealed) {
        Ok(plain) => Ok(plain),
        Err(_) => Err(CryptoError::Unauthentic),
    }
}

} // verus!
