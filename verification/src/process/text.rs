//! Signing and verifying text under a key.
//!
//! Two schemes stand behind the same capabilities: a keyed hash, whose one
//! secret key signs and verifies, and an asymmetric scheme, whose private
//! key signs and whose public key verifies. Input and key material come as
//! bytes; signatures travel as URL-safe base64 text.

use crate::base64_codec::{
    decode_url_safe,
    encodable,
    encode_url_safe,
    encoded_len,
    is_url_safe_text,
    url_safe_decoding,
    url_safe_encoding,
};
use crate::cli::text::TextSignFormat;
use crate::ed25519_keys::{
    derive_public_key,
    ed25519_accepts,
    ed25519_key_valid,
    ed25519_public_key,
    ed25519_signature,
    key_is_valid,
    random_secret_key,
    sign_message,
    signature_accepted,
};
use crate::error::SignError;
use crate::keyed_hash::{blake3_keyed_hash, digest_matches, keyed_hash};
use crate::process::gen_pass::{
    charset,
    lemma_charset_ascii,
    process_gen_pass,
    shares_char,
    LOWER,
    NUMBERS,
    SYMBOLS,
    UPPER,
};
use vstd::string::*;
use vstd::prelude::*;
use vstd::slice::slice_to_vec;
use vstd::utf8::*;

verus! {

/// The number of bytes in a key of either scheme.
pub const KEY_LEN: usize = 32;

/// The number of bytes in a signature of the asymmetric scheme.
pub const SIGNATURE_LEN: usize = 64;

/// The key that key material holds: its first 32 bytes.
pub open spec fn key_of(material: Seq<u8>) -> Seq<u8> {
    material.take(32)
}

/// Takes the key out of key material. Material of fewer than 32 bytes is
/// refused; bytes after the 32nd are ignored.
pub fn key_prefix(material: &[u8]) -> (key: Result<[u8; 32], SignError>)
    ensures
        material@.len() < 32 ==> key == Err::<[u8; 32], SignError>(SignError::KeyTooShort),
        material@.len() >= 32 ==> (key matches Ok(k) && k@ == key_of(material@)),
{
    if material.len() < KEY_LEN {
        return Err(SignError::KeyTooShort);
    }
    let mut key: [u8; 32] = [0u8; 32];
    let mut i: usize = 0;
    while i < KEY_LEN
        invariant
            i <= 32,
            material@.len() >= 32,
            forall|j: int| 0 <= j < i ==> key@[j] == material@[j],
        decreases 32 - i,
    {
        key[i] = material[i];
        i = i + 1;
    }
    assert(key@ =~= key_of(material@));
    Ok(key)
}

/// Shapes signature bytes into the 64 bytes that the asymmetric scheme
/// checks. Any other length is refused, before any check is made.
pub fn signature_array(signature: &[u8]) -> (shaped: Result<[u8; 64], SignError>)
    ensures
        signature@.len() != 64 ==> shaped == Err::<[u8; 64], SignError>(
            SignError::InvalidSignatureEncoding,
        ),
        signature@.len() == 64 ==> (shaped matches Ok(s) && s@ == signature@),
{
    if signature.len() != SIGNATURE_LEN {
        return Err(SignError::InvalidSignatureEncoding);
    }
    let mut shaped: [u8; 64] = [0u8; 64];
    let mut i: usize = 0;
    while i < SIGNATURE_LEN
        invariant
            i <= 64,
            signature@.len() == 64,
            forall|j: int| 0 <= j < i ==> shaped@[j] == signature@[j],
        decreases 64 - i,
    {
        shaped[i] = signature[i];
        i = i + 1;
    }
    assert(shaped@ =~= signature@);
    Ok(shaped)
}

/// What signature text decodes to, as this library reports it: the bytes,
/// or `InvalidSignatureEncoding` for text that is no URL-safe base64.
pub fn decoded_signature(decoded: Result<Vec<u8>, base64::DecodeError>) -> (bytes: Result<
    Vec<u8>,
    SignError,
>)
    ensures
        match decoded {
            Ok(b) => bytes == Ok::<Vec<u8>, SignError>(b),
            Err(_) => bytes == Err::<Vec<u8>, SignError>(SignError::InvalidSignatureEncoding),
        },
{
    match decoded {
        Ok(b) => Ok(b),
        Err(_) => Err(SignError::InvalidSignatureEncoding),
    }
}

/// Encodes signature bytes as URL-safe base64 text without padding. The
/// text decodes to the same bytes; it holds letters, digits, `-` and `_`
/// alone, four for every three bytes and two or three for a last one or
/// two.
pub fn encode_signature(signature: &[u8]) -> (text: String)
    requires
        encodable(signature@.len()),
    ensures
        text@ == url_safe_encoding(signature@),
        url_safe_decoding(text@) == Some(signature@),
        text@.len() == encoded_len(signature@.len(), false),
        is_url_safe_text(text@),
{
    encode_url_safe(signature)
}

/// Decodes signature text. Text that is no URL-safe base64 is
/// `InvalidSignatureEncoding`.
pub fn decode_signature(signature: &str) -> (bytes: Result<Vec<u8>, SignError>)
    ensures
        match url_safe_decoding(signature@) {
            Some(decoded) => bytes matches Ok(b) && b@ == decoded,
            None => bytes == Err::<Vec<u8>, SignError>(SignError::InvalidSignatureEncoding),
        },
{
    decoded_signature(decode_url_safe(signature))
}

/// A key that signs.
pub trait TextSignable {
    /// The signature that this key gives on `input`.
    spec fn signature(&self, input: Seq<u8>) -> Seq<u8>;

    /// Signs all of `input`. Every input can be signed, the empty one too.
    fn sign(&self, input: &[u8]) -> (signed: Result<Vec<u8>, SignError>)
        ensures
            signed matches Ok(bytes) && bytes@ == self.signature(input@),
    ;
}

/// A key that verifies.
pub trait TextVerifiable {
    /// What verifying `signature` on `input` comes to: whether it matches,
    /// or why it could not be checked.
    spec fn verdict(&self, input: Seq<u8>, signature: Seq<u8>) -> Result<bool, SignError>;

    /// Checks `signature` on `input`. A signature that does not match is
    /// `Ok(false)`, not an error.
    fn verify(&self, input: &[u8], signature: &[u8]) -> (verified: Result<bool, SignError>)
        ensures
            verified == self.verdict(input@, signature@),
    ;
}

/// A key that can be made from key material.
pub trait KeyLoadable: Sized {
    /// The 32 bytes of this key.
    spec fn key_bytes(&self) -> Seq<u8>;

    /// Why key material is refused, if it is.
    spec fn refusal(material: Seq<u8>) -> Option<SignError>;

    /// Material of fewer than 32 bytes is refused as too short, whatever the
    /// scheme.
    proof fn lemma_short_key_refused(material: Seq<u8>)
        requires
            material.len() < 32,
        ensures
            Self::refusal(material) == Some(SignError::KeyTooShort),
    ;

    /// Makes the key from the bytes of a key file: from the first 32 of
    /// them.
    fn load(material: &[u8]) -> (loaded: Result<Self, SignError>)
        ensures
            match Self::refusal(material@) {
                Some(e) => loaded == Err::<Self, SignError>(e),
                None => loaded matches Ok(key) && key.key_bytes() == key_of(material@),
            },
    ;
}

/// A scheme that can make new keys.
pub trait KeyGenerator {
    /// What holds of every bundle of keys that the scheme makes.
    spec fn well_formed(bundle: Seq<Seq<u8>>) -> bool;

    /// Makes new key material from a random source: the key files'
    /// contents, in the scheme's order.
    fn generate() -> (made: Result<Vec<Vec<u8>>, SignError>)
        ensures
            made matches Ok(bundle) && Self::well_formed(bundle.deep_view()),
    ;
}

/// The keyed hash: one secret key of 32 bytes.
pub struct Blake3 {
    key: [u8; 32],
}

impl Blake3 {
    /// Wraps a key.
    pub fn new(key: [u8; 32]) -> (made: Self)
        ensures
            made.key_bytes() == key@,
    {
        Blake3 { key }
    }

    /// Makes the key from key material: from its first 32 bytes.
    pub fn try_new(key: &[u8]) -> (made: Result<Self, SignError>)
        ensures
            key@.len() < 32 ==> made == Err::<Self, SignError>(SignError::KeyTooShort),
            key@.len() >= 32 ==> (made matches Ok(k) && k.key_bytes() == key_of(key@)),
    {
        let key = key_prefix(key)?;
        Ok(Blake3 { key })
    }
}

impl TextSignable for Blake3 {
    /// The digest of the input under the key.
    open spec fn signature(&self, input: Seq<u8>) -> Seq<u8> {
        blake3_keyed_hash(self.key_bytes(), input)@
    }

    fn sign(&self, input: &[u8]) -> (signed: Result<Vec<u8>, SignError>) {
        let digest = keyed_hash(&self.key, input);
        Ok(slice_to_vec(digest.as_slice()))
    }
}

impl TextVerifiable for Blake3 {
    /// Whether the signature is, byte for byte, the digest of the input
    /// under the key. Bytes of another length are a mismatch like any
    /// other.
    open spec fn verdict(&self, input: Seq<u8>, signature: Seq<u8>) -> Result<bool, SignError> {
        Ok(blake3_keyed_hash(self.key_bytes(), input)@ == signature)
    }

    fn verify(&self, input: &[u8], signature: &[u8]) -> (verified: Result<bool, SignError>) {
        let digest = keyed_hash(&self.key, input);
        Ok(digest_matches(&digest, signature))
    }
}

impl KeyLoadable for Blake3 {
    closed spec fn key_bytes(&self) -> Seq<u8> {
        self.key@
    }

    open spec fn refusal(material: Seq<u8>) -> Option<SignError> {
        if material.len() < 32 {
            Some(SignError::KeyTooShort)
        } else {
            None
        }
    }

    proof fn lemma_short_key_refused(material: Seq<u8>) {
    }

    fn load(material: &[u8]) -> (loaded: Result<Self, SignError>) {
        Blake3::try_new(material)
    }
}

/// Whether some byte of `key` is the code of a character of `set`.
pub open spec fn holds_code_of(key: Seq<u8>, set: Seq<char>) -> bool {
    exists|i: int| 0 <= i < key.len() && set.contains(#[trigger] key[i] as char)
}

/// The bundle that holds a password's bytes as its one key.
pub fn password_bundle(password: &str) -> (bundle: Vec<Vec<u8>>)
    ensures
        bundle.deep_view() == seq![encode_utf8(password@)],
{
    let key = slice_to_vec(password.as_bytes());
    let mut bundle: Vec<Vec<u8>> = Vec::new();
    bundle.push(key);
    assert(bundle.deep_view()[0] =~= key@);
    assert(bundle.deep_view() =~= seq![encode_utf8(password@)]);
    bundle
}

impl KeyGenerator for Blake3 {
    /// One key of 32 bytes. Each byte is the code of a letter, a digit or a
    /// symbol of the password classes, and each of the four classes has a
    /// character in the key.
    open spec fn well_formed(bundle: Seq<Seq<u8>>) -> bool {
        &&& bundle.len() == 1
        &&& bundle[0].len() == 32
        &&& forall|i: int|
            0 <= i < 32 ==> charset(true, true, true, true).contains(
                #[trigger] bundle[0][i] as char,
            )
        &&& holds_code_of(bundle[0], UPPER@)
        &&& holds_code_of(bundle[0], LOWER@)
        &&& holds_code_of(bundle[0], NUMBERS@)
        &&& holds_code_of(bundle[0], SYMBOLS@)
    }

    fn generate() -> (made: Result<Vec<Vec<u8>>, SignError>) {
        match process_gen_pass(32, true, true, true, true) {
            Ok((password, _, _)) => {
                let bundle = password_bundle(password.as_str());
                proof {
                    let key = encode_utf8(password@);
                    lemma_ascii_key(password@, key);
                    lemma_class_in_key(password@, key, UPPER@);
                    lemma_class_in_key(password@, key, LOWER@);
                    lemma_class_in_key(password@, key, NUMBERS@);
                    lemma_class_in_key(password@, key, SYMBOLS@);
                }
                Ok(bundle)
            },
            Err(_) => vstd::pervasive::unreached(),
        }
    }
}

/// The bytes of a password over the four classes are as many as its
/// characters, and each is the code of the character in its place, which is
/// one of the classes.
proof fn lemma_ascii_key(password: Seq<char>, key: Seq<u8>)
    requires
        key == encode_utf8(password),
        forall|c: char| #[trigger]
            password.contains(c) ==> charset(true, true, true, true).contains(c),
    ensures
        key.len() == password.len(),
        forall|i: int| 0 <= i < key.len() ==> #[trigger] key[i] as char == password[i],
        forall|i: int|
            0 <= i < key.len() ==> charset(true, true, true, true).contains(
                #[trigger] key[i] as char,
            ),
{
    lemma_charset_ascii(true, true, true, true);
    let all = charset(true, true, true, true);
    assert forall|i: int| 0 <= i < password.len() implies '\0' <= #[trigger] password[i]
        <= '\u{7f}' by {
        assert(password.contains(password[i]));
        let j = choose|j: int| 0 <= j < all.len() && all[j] == password[i];
        assert('\0' <= all[j] <= '\u{7f}');
    }
    is_ascii_chars_encode_utf8(password);
    assert forall|i: int| 0 <= i < key.len() implies #[trigger] key[i] as char == password[i]
        && all.contains(key[i] as char) by {
        assert(password.contains(password[i]));
        assert(password[i] as u8 == key[i]);
    }
}

/// A class that has a character in the password has one in the key.
proof fn lemma_class_in_key(password: Seq<char>, key: Seq<u8>, set: Seq<char>)
    requires
        key.len() == password.len(),
        forall|i: int| 0 <= i < key.len() ==> #[trigger] key[i] as char == password[i],
        shares_char(password, set),
    ensures
        holds_code_of(key, set),
{
    let c = choose|c: char| #[trigger] password.contains(c) && set.contains(c);
    let i = choose|i: int| 0 <= i < password.len() && password[i] == c;
    assert(set.contains(key[i] as char));
}

/// The asymmetric scheme's signing half: one private key of 32 bytes, with
/// the public key that belongs to it.
pub struct Ed25519TextSigner {
    key: [u8; 32],
    public: [u8; 32],
}

impl Ed25519TextSigner {
    #[verifier::type_invariant]
    spec fn keys_belong_together(self) -> bool {
        &&& self.public == ed25519_public_key(self.key@)
        &&& ed25519_key_valid(self.public@)
    }

    /// The public key that verifies what this key signs.
    pub closed spec fn public_key(&self) -> Seq<u8> {
        self.public@
    }

    /// Wraps a private key, and derives its public key.
    pub fn new(key: [u8; 32]) -> (made: Self)
        ensures
            made.key_bytes() == key@,
            made.public_key() == ed25519_public_key(key@)@,
            ed25519_key_valid(made.public_key()),
    {
        let public = derive_public_key(&key);
        Ed25519TextSigner { key, public }
    }

    /// Makes the key from key material: from its first 32 bytes.
    pub fn try_new(key: &[u8]) -> (made: Result<Self, SignError>)
        ensures
            key@.len() < 32 ==> made == Err::<Self, SignError>(SignError::KeyTooShort),
            key@.len() >= 32 ==> (made matches Ok(k) && k.key_bytes() == key_of(key@)
                && k.public_key() == ed25519_public_key(key_of(key@))@),
    {
        let key = key_prefix(key)?;
        Ok(Ed25519TextSigner::new(key))
    }
}

impl TextSignable for Ed25519TextSigner {
    /// The signature that the curve gives on the input under the private
    /// key.
    open spec fn signature(&self, input: Seq<u8>) -> Seq<u8> {
        ed25519_signature(self.key_bytes(), input)@
    }

    /// The signature is one that the key's own public key accepts, and that
    /// public key is the encoding of a point.
    fn sign(&self, input: &[u8]) -> (signed: Result<Vec<u8>, SignError>)
        ensures
            signed matches Ok(bytes) && ed25519_accepts(self.public_key(), input@, bytes@),
            self.public_key() == ed25519_public_key(self.key_bytes())@,
            ed25519_key_valid(self.public_key()),
    {
        proof {
            use_type_invariant(self);
        }
        let signature = sign_message(&self.key, input);
        Ok(slice_to_vec(signature.as_slice()))
    }
}

impl KeyLoadable for Ed25519TextSigner {
    closed spec fn key_bytes(&self) -> Seq<u8> {
        self.key@
    }

    open spec fn refusal(material: Seq<u8>) -> Option<SignError> {
        if material.len() < 32 {
            Some(SignError::KeyTooShort)
        } else {
            None
        }
    }

    proof fn lemma_short_key_refused(material: Seq<u8>) {
    }

    fn load(material: &[u8]) -> (loaded: Result<Self, SignError>) {
        Ed25519TextSigner::try_new(material)
    }
}

impl KeyGenerator for Ed25519TextSigner {
    /// A private key of 32 bytes and then its public key, which is the
    /// encoding of a point.
    open spec fn well_formed(bundle: Seq<Seq<u8>>) -> bool {
        &&& bundle.len() == 2
        &&& bundle[0].len() == 32
        &&& bundle[1] == ed25519_public_key(bundle[0])@
        &&& ed25519_key_valid(bundle[1])
    }

    fn generate() -> (made: Result<Vec<Vec<u8>>, SignError>) {
        Ok(key_pair_bundle(random_secret_key()))
    }
}

/// The bundle of a private key: the key, and then the public key that
/// belongs to it, which is the encoding of a point.
pub fn key_pair_bundle(secret: [u8; 32]) -> (bundle: Vec<Vec<u8>>)
    ensures
        bundle.deep_view() == seq![secret@, ed25519_public_key(secret@)@],
        ed25519_key_valid(ed25519_public_key(secret@)@),
{
    let public = derive_public_key(&secret);
    let private_key = slice_to_vec(secret.as_slice());
    let public_key = slice_to_vec(public.as_slice());
    let mut bundle: Vec<Vec<u8>> = Vec::new();
    bundle.push(private_key);
    bundle.push(public_key);
    assert(bundle.deep_view()[0] =~= secret@);
    assert(bundle.deep_view()[1] =~= public@);
    assert(bundle.deep_view() =~= seq![secret@, ed25519_public_key(secret@)@]);
    bundle
}

/// The asymmetric scheme's verifying half: one public key of 32 bytes that
/// are the encoding of a point on the curve.
pub struct Ed25519TextVerifier {
    key: [u8; 32],
}

impl Ed25519TextVerifier {
    #[verifier::type_invariant]
    spec fn key_is_a_point(self) -> bool {
        ed25519_key_valid(self.key@)
    }

    /// Wraps a public key.
    fn new(key: [u8; 32]) -> (made: Self)
        requires
            ed25519_key_valid(key@),
        ensures
            made.key_bytes() == key@,
    {
        Ed25519TextVerifier { key }
    }

    /// Makes the key from key material: from its first 32 bytes, which must
    /// be the encoding of a point.
    pub fn try_new(key: &[u8]) -> (made: Result<Self, SignError>)
        ensures
            match Self::refusal(key@) {
                Some(e) => made == Err::<Self, SignError>(e),
                None => made matches Ok(k) && k.key_bytes() == key_of(key@),
            },
    {
        let key = key_prefix(key)?;
        if key_is_valid(&key) {
            Ok(Ed25519TextVerifier::new(key))
        } else {
            Err(SignError::InvalidKeyEncoding)
        }
    }
}

impl TextVerifiable for Ed25519TextVerifier {
    /// Signature bytes that are not 64 are refused before any check; for 64
    /// bytes the answer is the curve's, and every failure inside it is
    /// `Ok(false)`.
    open spec fn verdict(&self, input: Seq<u8>, signature: Seq<u8>) -> Result<bool, SignError> {
        if signature.len() != 64 {
            Err(SignError::InvalidSignatureEncoding)
        } else {
            Ok(ed25519_accepts(self.key_bytes(), input, signature))
        }
    }

    /// The key that checks is the encoding of a point.
    fn verify(&self, input: &[u8], signature: &[u8]) -> (verified: Result<bool, SignError>)
        ensures
            ed25519_key_valid(self.key_bytes()),
    {
        proof {
            use_type_invariant(self);
        }
        let shaped = signature_array(signature)?;
        Ok(signature_accepted(&self.key, input, &shaped))
    }
}

impl KeyLoadable for Ed25519TextVerifier {
    closed spec fn key_bytes(&self) -> Seq<u8> {
        self.key@
    }

    open spec fn refusal(material: Seq<u8>) -> Option<SignError> {
        if material.len() < 32 {
            Some(SignError::KeyTooShort)
        } else if !ed25519_key_valid(key_of(material)) {
            Some(SignError::InvalidKeyEncoding)
        } else {
            None
        }
    }

    proof fn lemma_short_key_refused(material: Seq<u8>) {
    }

    fn load(material: &[u8]) -> (loaded: Result<Self, SignError>) {
        Ed25519TextVerifier::try_new(material)
    }
}

/// The signature bytes that a scheme gives on `input` under the key in
/// `key`.
pub open spec fn raw_signature(format: TextSignFormat, key: Seq<u8>, input: Seq<u8>) -> Seq<u8> {
    match format {
        TextSignFormat::Blake3 => blake3_keyed_hash(key_of(key), input)@,
        TextSignFormat::Ed25519 => ed25519_signature(key_of(key), input)@,
    }
}

/// What signing comes to: the signature as URL-safe base64 text, or the
/// reason why the key was refused.
pub open spec fn sign_outcome(input: Seq<u8>, key: Seq<u8>, format: TextSignFormat) -> Result<
    Seq<char>,
    SignError,
> {
    if key.len() < 32 {
        Err(SignError::KeyTooShort)
    } else {
        Ok(url_safe_encoding(raw_signature(format, key, input)))
    }
}

/// Why key material is refused as a scheme's verifying key, if it is.
pub open spec fn verifying_key_refusal(key: Seq<u8>, format: TextSignFormat) -> Option<
    SignError,
> {
    match format {
        TextSignFormat::Blake3 => <Blake3 as KeyLoadable>::refusal(key),
        TextSignFormat::Ed25519 => <Ed25519TextVerifier as KeyLoadable>::refusal(key),
    }
}

/// What checking signature bytes under a loaded key comes to.
pub open spec fn check_outcome(
    input: Seq<u8>,
    key: Seq<u8>,
    signature: Seq<u8>,
    format: TextSignFormat,
) -> Result<bool, SignError> {
    match format {
        TextSignFormat::Blake3 => Ok(blake3_keyed_hash(key_of(key), input)@ == signature),
        TextSignFormat::Ed25519 => if signature.len() != 64 {
            Err(SignError::InvalidSignatureEncoding)
        } else {
            Ok(ed25519_accepts(key_of(key), input, signature))
        },
    }
}

/// What verifying comes to. Signature text that does not decode is refused
/// first, then a key that does not load, then signature bytes of a length
/// that the scheme cannot take; after that the answer is whether the
/// signature matches.
pub open spec fn verify_outcome(
    input: Seq<u8>,
    key: Seq<u8>,
    signature: Seq<char>,
    format: TextSignFormat,
) -> Result<bool, SignError> {
    match url_safe_decoding(signature) {
        None => Err(SignError::InvalidSignatureEncoding),
        Some(bytes) => match verifying_key_refusal(key, format) {
            Some(e) => Err(e),
            None => check_outcome(input, key, bytes, format),
        },
    }
}

/// Whether `verifying` holds the key that checks what the key in `signing`
/// signs: the same key for the keyed hash, the private key's public key for
/// the asymmetric scheme.
pub open spec fn key_pair(format: TextSignFormat, signing: Seq<u8>, verifying: Seq<u8>) -> bool {
    &&& signing.len() >= 32
    &&& verifying.len() >= 32
    &&& match format {
        TextSignFormat::Blake3 => key_of(verifying) == key_of(signing),
        TextSignFormat::Ed25519 => key_of(verifying) == ed25519_public_key(key_of(signing))@,
    }
}

/// Whether `text` is accepted as a signature on `input` under every key
/// that pairs with the key in `signing`.
pub open spec fn verifies_under_paired_keys(
    input: Seq<u8>,
    signing: Seq<u8>,
    text: Seq<char>,
    format: TextSignFormat,
) -> bool {
    forall|verifying: Seq<u8>| #[trigger]
        key_pair(format, signing, verifying) ==> verify_outcome(input, verifying, text, format)
            == Ok::<bool, SignError>(true)
}

/// What holds of the keys that are made for a scheme: see each scheme's
/// `well_formed`.
pub open spec fn generated(bundle: Seq<Seq<u8>>, format: TextSignFormat) -> bool {
    match format {
        TextSignFormat::Blake3 => <Blake3 as KeyGenerator>::well_formed(bundle),
        TextSignFormat::Ed25519 => <Ed25519TextSigner as KeyGenerator>::well_formed(bundle),
    }
}

/// How many characters the text of a scheme's signature has: 43 for the 32
/// bytes of the keyed hash, 86 for the 64 bytes of the asymmetric scheme.
pub open spec fn signature_text_len(format: TextSignFormat) -> nat {
    match format {
        TextSignFormat::Blake3 => 43,
        TextSignFormat::Ed25519 => 86,
    }
}

/// Signs `input` under the key that the key material `key` holds and gives
/// the signature as URL-safe base64 text.
///
/// The input is signed as it is, trailing whitespace included. The text
/// that comes back holds letters, digits, `-` and `_` alone and has the
/// scheme's length; it decodes to the signature, and it verifies on the same
/// input under every key that pairs with the signing key.
pub fn process_sign(input: &[u8], key: &[u8], format: TextSignFormat) -> (signed: Result<
    String,
    SignError,
>)
    ensures
        match sign_outcome(input@, key@, format) {
            Ok(text) => signed matches Ok(t) && t@ == text,
            Err(e) => signed == Err::<String, SignError>(e),
        },
        signed matches Ok(t) ==> t@.len() == signature_text_len(format) && is_url_safe_text(t@),
        signed matches Ok(t) ==> url_safe_decoding(t@) == Some(
            raw_signature(format, key@, input@),
        ),
        signed matches Ok(t) ==> verifies_under_paired_keys(input@, key@, t@, format),
{
    let signature = match format {
        TextSignFormat::Blake3 => {
            let signer = Blake3::load(key)?;
            signer.sign(input)?
        },
        TextSignFormat::Ed25519 => {
            let signer = Ed25519TextSigner::load(key)?;
            signer.sign(input)?
        },
    };
    Ok(encode_signature(signature.as_slice()))
}

/// Checks the signature text `signature` on `input` under the key that the
/// key material `key` holds.
///
/// Text that cannot be decoded is an error, and so is a key that cannot be
/// loaded; a signature that does not match is `Ok(false)`.
pub fn process_verify(input: &[u8], key: &[u8], signature: &str, format: TextSignFormat) -> (verified:
    Result<bool, SignError>)
    ensures
        verified == verify_outcome(input@, key@, signature@, format),
{
    let signature = decode_signature(signature)?;
    match format {
        TextSignFormat::Blake3 => {
            let verifier = Blake3::load(key)?;
            verifier.verify(input, signature.as_slice())
        },
        TextSignFormat::Ed25519 => {
            let verifier = Ed25519TextVerifier::load(key)?;
            verifier.verify(input, signature.as_slice())
        },
    }
}

/// Makes new keys for a scheme: the one shared key of the keyed hash, or the
/// private and then the public key of the asymmetric scheme. Writing them
/// anywhere is the caller's part.
pub fn process_key_generate(format: TextSignFormat) -> (made: Result<Vec<Vec<u8>>, SignError>)
    ensures
        made matches Ok(bundle) && generated(bundle.deep_view(), format),
{
    match format {
        TextSignFormat::Blake3 => Blake3::generate(),
        TextSignFormat::Ed25519 => Ed25519TextSigner::generate(),
    }
}

/// What a key of a scheme is for, as a report names it.
pub open spec fn key_use(format: TextSignFormat, verifying: bool) -> Seq<char> {
    match format {
        TextSignFormat::Blake3 => "Blake3 signing"@,
        TextSignFormat::Ed25519 => if verifying {
            "Ed25519 verifying"@
        } else {
            "Ed25519 signing"@
        },
    }
}

/// The report of key material that is too short for a scheme's signing or
/// verifying key.
pub fn key_too_short_message(format: TextSignFormat, verifying: bool) -> (text: String)
    ensures
        text@ == "Key length is too short for "@ + key_use(format, verifying)
            + ", need at least 32 bytes"@,
{
    let key_use = match format {
        TextSignFormat::Blake3 => "Blake3 signing",
        TextSignFormat::Ed25519 => if verifying {
            "Ed25519 verifying"
        } else {
            "Ed25519 signing"
        },
    };
    "Key length is too short for ".to_owned().concat(key_use).concat(", need at least 32 bytes")
}

/// The names of the files that a scheme's keys are kept in, in the order in
/// which the keys are made.
pub open spec fn key_file_names_of(format: TextSignFormat) -> Seq<Seq<char>> {
    match format {
        TextSignFormat::Blake3 => seq!["blake3.txt"@],
        TextSignFormat::Ed25519 => seq!["ed25519_private.key"@, "ed25519_public.key"@],
    }
}

/// The names of the files that a scheme's keys are written to: one name
/// for each key that `process_key_generate` makes, in the same order.
pub fn key_file_names(format: TextSignFormat) -> (names: Vec<&'static str>)
    ensures
        names@.len() == key_file_names_of(format).len(),
        forall|i: int| 0 <= i < names@.len() ==> (#[trigger] names@[i])@ == key_file_names_of(format)[i],
{
    let mut names: Vec<&'static str> = Vec::new();
    match format {
        TextSignFormat::Blake3 => {
            names.push("blake3.txt");
        },
        TextSignFormat::Ed25519 => {
            names.push("ed25519_private.key");
            names.push("ed25519_public.key");
        },
    }
    names
}

/// The keyed hash accepts its own signature: verifying what a key signed,
/// on the same input and under the same key, is `Ok(true)`, for every input
/// and the empty one too.
pub proof fn lemma_keyed_hash_round_trip(key: Blake3, input: Seq<u8>)
    ensures
        key.verdict(input, key.signature(input)) == Ok::<bool, SignError>(true),
{
}

/// The keyed hash signs as a function of key and input: equal keys give
/// equal signatures on equal inputs.
pub proof fn lemma_keyed_hash_deterministic(
    first: Blake3,
    second: Blake3,
    first_input: Seq<u8>,
    second_input: Seq<u8>,
)
    requires
        first.key_bytes() == second.key_bytes(),
        first_input == second_input,
    ensures
        first.signature(first_input) == second.signature(second_input),
{
}

/// A signature has the length of its scheme: 32 bytes for the keyed hash,
/// 64 for the asymmetric scheme.
pub proof fn lemma_signature_len(hash_key: Blake3, signer: Ed25519TextSigner, input: Seq<u8>)
    ensures
        hash_key.signature(input).len() == 32,
        signer.signature(input).len() == 64,
{
}

/// Under the keyed hash, a signature made on one input is accepted on
/// another exactly if both inputs have the same digest under the key.
pub proof fn lemma_keyed_hash_accepts_equal_digests_only(
    key: Blake3,
    signed: Seq<u8>,
    presented: Seq<u8>,
)
    ensures
        key.verdict(presented, key.signature(signed)) == Ok::<bool, SignError>(
            blake3_keyed_hash(key.key_bytes(), presented) == blake3_keyed_hash(
                key.key_bytes(),
                signed,
            ),
        ),
{
    let a = blake3_keyed_hash(key.key_bytes(), presented);
    let b = blake3_keyed_hash(key.key_bytes(), signed);
    if a@ == b@ {
        assert(a =~= b);
    }
}

/// A signature that was made on one input and is presented with another,
/// under a paired key that loads, is answered with a value, never with an
/// error: for the keyed hash, whether both inputs have the same digest; for
/// the asymmetric scheme, what the curve says of the signature and the
/// presented input. That the value is `false` for an input that differs is
/// the primitives' part and is not stated here.
pub proof fn lemma_signature_on_other_input(
    signed: Seq<u8>,
    presented: Seq<u8>,
    signing: Seq<u8>,
    verifying: Seq<u8>,
    text: Seq<char>,
    format: TextSignFormat,
)
    requires
        key_pair(format, signing, verifying),
        verifying_key_refusal(verifying, format) is None,
        url_safe_decoding(text) == Some(raw_signature(format, signing, signed)),
    ensures
        verify_outcome(presented, verifying, text, format) == Ok::<bool, SignError>(
            match format {
                TextSignFormat::Blake3 => blake3_keyed_hash(key_of(signing), presented)
                    == blake3_keyed_hash(key_of(signing), signed),
                TextSignFormat::Ed25519 => ed25519_accepts(
                    key_of(verifying),
                    presented,
                    ed25519_signature(key_of(signing), signed)@,
                ),
            },
        ),
{
    let a = blake3_keyed_hash(key_of(signing), presented);
    let b = blake3_keyed_hash(key_of(signing), signed);
    if a@ == b@ {
        assert(a =~= b);
    }
}

/// A signature of the keyed hash is no signature of the asymmetric scheme:
/// its verifier refuses it as `InvalidSignatureEncoding`, for its length,
/// whatever the keys and the inputs.
pub proof fn lemma_cross_scheme_rejected(
    verifier: Ed25519TextVerifier,
    input: Seq<u8>,
    hash_key: Blake3,
    hashed: Seq<u8>,
)
    ensures
        verifier.verdict(input, hash_key.signature(hashed)) == Err::<bool, SignError>(
            SignError::InvalidSignatureEncoding,
        ),
{
}

/// The verifying command refuses the text of a keyed-hash signature under
/// the asymmetric scheme as `InvalidSignatureEncoding`, whatever loadable
/// key it is given.
pub proof fn lemma_cross_scheme_rejected_by_command(
    input: Seq<u8>,
    verifying: Seq<u8>,
    text: Seq<char>,
    hash_key: Seq<u8>,
    hashed: Seq<u8>,
)
    requires
        url_safe_decoding(text) == Some(raw_signature(TextSignFormat::Blake3, hash_key, hashed)),
        verifying_key_refusal(verifying, TextSignFormat::Ed25519) is None,
    ensures
        verify_outcome(input, verifying, text, TextSignFormat::Ed25519) == Err::<bool, SignError>(
            SignError::InvalidSignatureEncoding,
        ),
{
}

/// A key of fewer than 32 bytes stops both commands, under either scheme:
/// signing ends in `KeyTooShort`, and verifying ends in an error, which is
/// `KeyTooShort` wherever the signature text decodes.
pub proof fn lemma_short_key_stops_commands(
    input: Seq<u8>,
    key: Seq<u8>,
    signature: Seq<char>,
    format: TextSignFormat,
)
    requires
        key.len() < 32,
    ensures
        sign_outcome(input, key, format) == Err::<Seq<char>, SignError>(SignError::KeyTooShort),
        verify_outcome(input, key, signature, format) is Err,
        url_safe_decoding(signature) is Some ==> verify_outcome(input, key, signature, format)
            == Err::<bool, SignError>(SignError::KeyTooShort),
{
}

/// The keys that are made for a scheme pair with each other: what the first
/// signs, the last verifies, and the last loads as a verifying key. There
/// is one file name for each of them.
pub proof fn lemma_generated_keys_pair(bundle: Seq<Seq<u8>>, format: TextSignFormat)
    requires
        generated(bundle, format),
    ensures
        key_pair(format, bundle.first(), bundle.last()),
        verifying_key_refusal(bundle.last(), format) is None,
        bundle.len() == key_file_names_of(format).len(),
{
    assert(bundle.first().take(32) =~= bundle.first());
    assert(bundle.last().take(32) =~= bundle.last());
}

} // verus!
