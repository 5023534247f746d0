use rcli::process::text::{
    decode_signature, decoded_signature, encode_signature, key_file_names, key_pair_bundle,
    key_prefix, key_too_short_message, password_bundle, signature_array,
};
use rcli::{
    process_key_generate, process_sign, process_verify, Blake3, Ed25519TextSigner,
    Ed25519TextVerifier, KeyGenerator, KeyLoadable, SignError, TextSignFormat, TextSignable,
    TextVerifiable,
};

const FOX: &[u8] = b"The quick brown fox jumps over the lazy dog";

fn hex(text: &str) -> Vec<u8> {
    let digits: Vec<u8> = text.bytes().map(|b| (b as char).to_digit(16).unwrap() as u8).collect();
    digits.chunks(2).map(|pair| pair[0] * 16 + pair[1]).collect()
}

// The first test vector of RFC 8032, section 7.1.
const RFC_SECRET: &str = "9d61b19deffd5a60ba844af492ec2cc44449c5697b326919703bac031cae7f60";
const RFC_PUBLIC: &str = "d75a980182b10ab7d54bfed3c964073a0ee172f3daa62325af021a68f707511a";
const RFC_SIGNATURE: &str = "e5564300c360ac729086e2cc806e828a84877f1eb8e5d974d873e06522490155\
                             5fb8821590a33bacc61e39701cf9b46bd25bf5f0595bbe24655141438e7a100b";

#[test]
fn test_blake3_test_verify() {
    let key = b"an example very very secret key.";
    let data = b"The quick brown fox jumps over the lazy dog";
    let signer = Blake3::try_new(key).unwrap();
    let signature = signer.sign(data.as_ref()).unwrap();
    let verifier = Blake3::try_new(key).unwrap();
    let is_valid = verifier.verify(data.as_ref(), &signature).unwrap();
    assert!(is_valid);
}

#[test]
fn test_blake3_verify_from_file() {
    // What a key file holds: a generated key and the line's end.
    let key_file = b"z4GduBRUt&4p5WcgR*Kq7Hu%XTqpL9rM\n";
    let vk = Blake3::load(key_file).unwrap();
    let data = b"The quick brown fox jumps over the lazy dog";
    let signature = vk.sign(&data[..]).unwrap();
    assert!(vk.verify(&data[..], &signature).unwrap());
}

#[test]
fn test_ed25519_sign_verify() {
    let pk = Ed25519TextSigner::load(&hex(RFC_SECRET)).unwrap();
    let vk = Ed25519TextVerifier::load(&hex(RFC_PUBLIC)).unwrap();

    let data = b"The quick brown fox jumps over the lazy dog";
    let signature = pk.sign(&data[..]).unwrap();
    assert!(vk.verify(&data[..], &signature).unwrap());
}

#[test]
fn blake3_signs_as_the_keyed_hash() {
    let key = b"whats the Elvish word for friend";
    let signer = Blake3::try_new(key).unwrap();
    for input in [&b""[..], &b"a"[..], FOX] {
        let expected = blake3::keyed_hash(key, input);
        assert_eq!(signer.sign(input).unwrap(), expected.as_bytes().to_vec());
    }
    // The keyed hash of the empty input in BLAKE3's own test vectors.
    let vector = hex("92b2b75604ed3c761f9d6f62392c8a9227ad0ea3f09573e783f1498a4ed60d26");
    assert_eq!(signer.sign(b"").unwrap(), vector);
}

#[test]
fn ed25519_signs_as_the_standard_says() {
    let signer = Ed25519TextSigner::try_new(&hex(RFC_SECRET)).unwrap();
    assert_eq!(signer.sign(b"").unwrap(), hex(RFC_SIGNATURE));
    let verifier = Ed25519TextVerifier::try_new(&hex(RFC_PUBLIC)).unwrap();
    assert_eq!(verifier.verify(b"", &hex(RFC_SIGNATURE)), Ok(true));
    assert_eq!(verifier.verify(b"x", &hex(RFC_SIGNATURE)), Ok(false));
}

#[test]
fn round_trip_for_every_scheme() {
    let inputs: [&[u8]; 4] = [b"", b"a", FOX, &[0, 255, 10, 13, 32]];
    for format in [TextSignFormat::Blake3, TextSignFormat::Ed25519] {
        let keys = process_key_generate(format).unwrap();
        let signing = &keys[0];
        let verifying = &keys[keys.len() - 1];
        for input in inputs {
            let text = process_sign(input, signing, format).unwrap();
            assert_eq!(process_verify(input, verifying, &text, format), Ok(true));
        }
    }
}

#[test]
fn every_flipped_bit_is_noticed() {
    for format in [TextSignFormat::Blake3, TextSignFormat::Ed25519] {
        let keys = process_key_generate(format).unwrap();
        let text = process_sign(FOX, &keys[0], format).unwrap();
        for position in 0..FOX.len() {
            for bit in 0..8 {
                let mut tampered = FOX.to_vec();
                tampered[position] ^= 1 << bit;
                assert_eq!(
                    process_verify(&tampered, &keys[keys.len() - 1], &text, format),
                    Ok(false)
                );
            }
        }
    }
}

#[test]
fn trailing_whitespace_is_signed() {
    let key = [0x41u8; 32];
    let text = process_sign(b"message\n", &key, TextSignFormat::Blake3).unwrap();
    assert_eq!(process_verify(b"message\n", &key, &text, TextSignFormat::Blake3), Ok(true));
    assert_eq!(process_verify(b"message", &key, &text, TextSignFormat::Blake3), Ok(false));
}

#[test]
fn short_keys_are_refused_by_every_scheme() {
    let short = [7u8; 31];
    assert!(matches!(Blake3::try_new(&short), Err(SignError::KeyTooShort)));
    assert!(matches!(Blake3::load(&short), Err(SignError::KeyTooShort)));
    assert!(matches!(Blake3::load(&[]), Err(SignError::KeyTooShort)));
    assert!(matches!(Ed25519TextSigner::try_new(&short), Err(SignError::KeyTooShort)));
    assert!(matches!(Ed25519TextSigner::load(&short), Err(SignError::KeyTooShort)));
    assert!(matches!(Ed25519TextVerifier::try_new(&short), Err(SignError::KeyTooShort)));
    assert!(matches!(Ed25519TextVerifier::load(&short), Err(SignError::KeyTooShort)));
    assert_eq!(key_prefix(&short), Err(SignError::KeyTooShort));
    for format in [TextSignFormat::Blake3, TextSignFormat::Ed25519] {
        assert_eq!(process_sign(FOX, &short, format), Err(SignError::KeyTooShort));
        assert_eq!(process_verify(FOX, &short, "AAAA", format), Err(SignError::KeyTooShort));
    }
}

#[test]
fn only_the_first_32_bytes_are_the_key() {
    let mut long = vec![0x41u8; 32];
    long.extend_from_slice(b"ignored tail\n");
    assert_eq!(key_prefix(&long), Ok([0x41u8; 32]));
    assert_eq!(key_prefix(&[0x41u8; 32]), Ok([0x41u8; 32]));
    let exact = Blake3::try_new(&[0x41u8; 32]).unwrap();
    let with_tail = Blake3::try_new(&long).unwrap();
    assert_eq!(exact.sign(FOX).unwrap(), with_tail.sign(FOX).unwrap());
    let wrapped = Blake3::new([0x41u8; 32]);
    assert_eq!(exact.sign(FOX).unwrap(), wrapped.sign(FOX).unwrap());

    let mut secret = hex(RFC_SECRET);
    secret.extend_from_slice(b"\n");
    let signer = Ed25519TextSigner::load(&secret).unwrap();
    assert_eq!(signer.sign(b"").unwrap(), hex(RFC_SIGNATURE));
    let wrapped = Ed25519TextSigner::new(hex(RFC_SECRET).try_into().unwrap());
    assert_eq!(wrapped.sign(b"").unwrap(), hex(RFC_SIGNATURE));
}

#[test]
fn a_public_key_has_to_be_a_point() {
    // No point of the curve has the y-coordinate 2.
    let mut not_a_point = [0u8; 32];
    not_a_point[0] = 2;
    assert!(matches!(
        Ed25519TextVerifier::try_new(&not_a_point),
        Err(SignError::InvalidKeyEncoding)
    ));
    assert!(matches!(
        Ed25519TextVerifier::load(&not_a_point),
        Err(SignError::InvalidKeyEncoding)
    ));
    let signature = process_sign(FOX, &hex(RFC_SECRET), TextSignFormat::Ed25519).unwrap();
    assert_eq!(
        process_verify(FOX, &not_a_point, &signature, TextSignFormat::Ed25519),
        Err(SignError::InvalidKeyEncoding)
    );
    assert!(Ed25519TextVerifier::try_new(&hex(RFC_PUBLIC)).is_ok());
}

#[test]
fn keyed_hash_signature_is_no_asymmetric_signature() {
    let hash_key = Blake3::try_new(&[0x41u8; 32]).unwrap();
    let signature = hash_key.sign(FOX).unwrap();
    assert_eq!(signature.len(), 32);
    let verifier = Ed25519TextVerifier::try_new(&hex(RFC_PUBLIC)).unwrap();
    assert_eq!(verifier.verify(FOX, &signature), Err(SignError::InvalidSignatureEncoding));

    let text = process_sign(FOX, &[0x41u8; 32], TextSignFormat::Blake3).unwrap();
    assert_eq!(
        process_verify(FOX, &hex(RFC_PUBLIC), &text, TextSignFormat::Ed25519),
        Err(SignError::InvalidSignatureEncoding)
    );
}

#[test]
fn keyed_hash_takes_any_length_as_a_mismatch() {
    let key = Blake3::try_new(&[0x41u8; 32]).unwrap();
    assert_eq!(key.verify(FOX, &[]), Ok(false));
    assert_eq!(key.verify(FOX, &[0u8; 64]), Ok(false));
    let mut signature = key.sign(FOX).unwrap();
    signature.push(0);
    assert_eq!(key.verify(FOX, &signature), Ok(false));
}

#[test]
fn signature_array_checks_length() {
    assert_eq!(signature_array(&[7u8; 64]), Ok([7u8; 64]));
    assert_eq!(signature_array(&[7u8; 63]), Err(SignError::InvalidSignatureEncoding));
    assert_eq!(signature_array(&[7u8; 65]), Err(SignError::InvalidSignatureEncoding));
    assert_eq!(signature_array(&[]), Err(SignError::InvalidSignatureEncoding));
}

#[test]
fn signature_text_that_does_not_decode_is_an_error() {
    let key = [0x41u8; 32];
    for format in [TextSignFormat::Blake3, TextSignFormat::Ed25519] {
        assert_eq!(
            process_verify(FOX, &key, "not base64!", format),
            Err(SignError::InvalidSignatureEncoding)
        );
        // Padding is no part of the URL-safe form.
        assert_eq!(
            process_verify(FOX, &key, "AAAA=", format),
            Err(SignError::InvalidSignatureEncoding)
        );
    }
    // The text is looked at before the key.
    assert_eq!(
        process_verify(FOX, &[1u8; 3], "not base64!", TextSignFormat::Blake3),
        Err(SignError::InvalidSignatureEncoding)
    );
    assert_eq!(
        decoded_signature(Err(base64::DecodeError::InvalidPadding)),
        Err(SignError::InvalidSignatureEncoding)
    );
    assert_eq!(decoded_signature(Ok(vec![1, 2, 3])), Ok(vec![1, 2, 3]));
}

#[test]
fn a_wrong_signature_is_false_and_no_error() {
    let key = [0x41u8; 32];
    assert_eq!(process_verify(FOX, &key, "", TextSignFormat::Blake3), Ok(false));
    let zeros = "A".repeat(86);
    assert_eq!(
        process_verify(FOX, &hex(RFC_PUBLIC), &zeros, TextSignFormat::Ed25519),
        Ok(false)
    );
}

#[test]
fn keyed_hash_is_a_function_of_key_and_input() {
    let key = [0x41u8; 32];
    let first = Blake3::try_new(&key).unwrap().sign(FOX).unwrap();
    let second = Blake3::try_new(&key).unwrap().sign(FOX).unwrap();
    assert_eq!(first, second);
    assert_eq!(first.len(), 32);
    assert_eq!(
        process_sign(FOX, &key, TextSignFormat::Blake3),
        process_sign(FOX, &key, TextSignFormat::Blake3)
    );
    let other = Blake3::try_new(&[0x42u8; 32]).unwrap();
    assert_eq!(other.verify(FOX, &first), Ok(false));
}

#[test]
fn keyed_hash_signature_as_text() {
    let key = [0x41u8; 32];
    let text = process_sign(FOX, &key, TextSignFormat::Blake3).unwrap();
    assert_eq!(text.len(), 43);
    assert!(text.bytes().all(|b| b.is_ascii_alphanumeric() || b == b'-' || b == b'_'));
    let digest = blake3::keyed_hash(&key, FOX);
    let expected = base64::Engine::encode(
        &base64::engine::general_purpose::URL_SAFE_NO_PAD,
        digest.as_bytes(),
    );
    assert_eq!(text, expected);
    let text = process_sign(b"", &hex(RFC_SECRET), TextSignFormat::Ed25519).unwrap();
    assert_eq!(text.len(), 86);
    assert_eq!(
        text,
        base64::Engine::encode(
            &base64::engine::general_purpose::URL_SAFE_NO_PAD,
            hex(RFC_SIGNATURE)
        )
    );
}

#[test]
fn generated_keyed_hash_key() {
    for _ in 0..20 {
        let keys = Blake3::generate().unwrap();
        assert_eq!(keys.len(), 1);
        assert_eq!(keys[0].len(), 32);
        let all = "ABCDEFGHIJKMNPQRSTUVWXYZabcdefghijkmnpqrstuvwxyz123456789!@#$%^&*-_=+?/";
        assert!(keys[0].iter().all(|b| all.as_bytes().contains(b)));
        let classes = [
            "ABCDEFGHIJKMNPQRSTUVWXYZ",
            "abcdefghijkmnpqrstuvwxyz",
            "123456789",
            "!@#$%^&*-_=+?/",
        ];
        for class in classes {
            assert!(keys[0].iter().any(|b| class.as_bytes().contains(b)));
        }
        assert!(Blake3::load(&keys[0]).is_ok());
    }
    let first = process_key_generate(TextSignFormat::Blake3).unwrap();
    let second = process_key_generate(TextSignFormat::Blake3).unwrap();
    assert_ne!(first, second);
}

#[test]
fn generated_asymmetric_keys_belong_together() {
    let keys = Ed25519TextSigner::generate().unwrap();
    assert_eq!(keys.len(), 2);
    assert_eq!(keys[0].len(), 32);
    assert_eq!(keys[1].len(), 32);
    let signer = Ed25519TextSigner::load(&keys[0]).unwrap();
    let verifier = Ed25519TextVerifier::load(&keys[1]).unwrap();
    let signature = signer.sign(b"msg").unwrap();
    assert_eq!(signature.len(), 64);
    assert_eq!(verifier.verify(b"msg", &signature), Ok(true));
    let other = signer.sign(b"other msg").unwrap();
    assert_eq!(verifier.verify(b"msg", &other), Ok(false));

    let again = process_key_generate(TextSignFormat::Ed25519).unwrap();
    assert_ne!(keys[0], again[0]);
    let stranger = Ed25519TextVerifier::load(&again[1]).unwrap();
    assert_eq!(stranger.verify(b"msg", &signature), Ok(false));
}

#[test]
fn public_key_is_derived_as_the_standard_says() {
    let keys = process_key_generate(TextSignFormat::Ed25519).unwrap();
    let secret: [u8; 32] = keys[0].clone().try_into().unwrap();
    let expected = ed25519_dalek::SigningKey::from_bytes(&secret).verifying_key().to_bytes();
    assert_eq!(keys[1], expected.to_vec());
}

#[test]
fn each_generated_key_has_its_file_name() {
    assert_eq!(key_file_names(TextSignFormat::Blake3), vec!["blake3.txt"]);
    assert_eq!(
        key_file_names(TextSignFormat::Ed25519),
        vec!["ed25519_private.key", "ed25519_public.key"]
    );
    for format in [TextSignFormat::Blake3, TextSignFormat::Ed25519] {
        let keys = process_key_generate(format).unwrap();
        assert_eq!(keys.len(), key_file_names(format).len());
    }
}

#[test]
fn signature_text_is_url_safe_and_unpadded() {
    assert_eq!(encode_signature(&[0xfb, 0xff]), "-_8");
    assert_eq!(encode_signature(&[]), "");
    assert_eq!(encode_signature(b"Hello, world!"), "SGVsbG8sIHdvcmxkIQ");
    assert_eq!(decode_signature("-_8"), Ok(vec![0xfb, 0xff]));
    assert_eq!(decode_signature(""), Ok(Vec::new()));
    assert_eq!(decode_signature("+/8"), Err(SignError::InvalidSignatureEncoding));
    assert_eq!(decode_signature("-_8="), Err(SignError::InvalidSignatureEncoding));
    let bytes: Vec<u8> = (0..=255).collect();
    assert_eq!(decode_signature(&encode_signature(&bytes)), Ok(bytes));
}

#[test]
fn a_password_is_bundled_as_its_bytes() {
    assert_eq!(password_bundle("aB3$"), vec![b"aB3$".to_vec()]);
    assert_eq!(password_bundle(""), vec![Vec::<u8>::new()]);
    assert_eq!(password_bundle("caf\u{e9}"), vec![vec![b'c', b'a', b'f', 0xc3, 0xa9]]);
}

#[test]
fn a_private_key_is_bundled_with_its_public_key() {
    let secret: [u8; 32] = hex(RFC_SECRET).try_into().unwrap();
    assert_eq!(key_pair_bundle(secret), vec![hex(RFC_SECRET), hex(RFC_PUBLIC)]);
    let zeros = key_pair_bundle([0u8; 32]);
    assert_eq!(zeros.len(), 2);
    assert_eq!(zeros[0], vec![0u8; 32]);
    assert_eq!(
        zeros[1],
        hex("3b6a27bcceb6a42d62a3a8d02a6f0d73653215771de243a63ac048a18b59da29")
    );
}

#[test]
fn a_short_key_is_reported_with_its_use() {
    assert_eq!(
        key_too_short_message(TextSignFormat::Blake3, false),
        "Key length is too short for Blake3 signing, need at least 32 bytes"
    );
    assert_eq!(
        key_too_short_message(TextSignFormat::Blake3, true),
        "Key length is too short for Blake3 signing, need at least 32 bytes"
    );
    assert_eq!(
        key_too_short_message(TextSignFormat::Ed25519, false),
        "Key length is too short for Ed25519 signing, need at least 32 bytes"
    );
    assert_eq!(
        key_too_short_message(TextSignFormat::Ed25519, true),
        "Key length is too short for Ed25519 verifying, need at least 32 bytes"
    );
}

#[test]
fn signature_text_has_the_length_of_its_scheme() {
    let inputs: [&[u8]; 3] = [b"", FOX, &[0xff; 100]];
    for input in inputs {
        let text = process_sign(input, &[0x41u8; 32], TextSignFormat::Blake3).unwrap();
        assert_eq!(text.chars().count(), 43);
        assert!(text.chars().all(|c| c.is_ascii_alphanumeric() || c == '-' || c == '_'));
        assert_eq!(decode_signature(&text).unwrap().len(), 32);
        let text = process_sign(input, &hex(RFC_SECRET), TextSignFormat::Ed25519).unwrap();
        assert_eq!(text.chars().count(), 86);
        assert!(text.chars().all(|c| c.is_ascii_alphanumeric() || c == '-' || c == '_'));
        assert_eq!(decode_signature(&text).unwrap().len(), 64);
    }
}
