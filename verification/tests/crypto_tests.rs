use rcli::{
    Blake3, CryptoError, Decryptor, Ed25519, Ed25519Verifier, EncryptFormat, Encryptor,
    KeyGenerator, KeyLoader, parse_format, process_decrypt, process_encrypt, process_generate,
};

#[test]
fn test_blake3_sign_verify() {
    let key = "0123456789ABCDEFGHIJKLMNOPQRSTUV";
    let content = "test_content";
    let blake3 = Blake3::try_new(key).unwrap();

    let sig = blake3.encrypt(content).unwrap();
    let ok = blake3.decrypt(content, &sig).unwrap();
    assert!(ok);
}

#[test]
fn test_ed25519_verify() {
    let keys = Ed25519::generate_key().unwrap();
    let sk = Ed25519::load(&keys[0]).unwrap();
    let pk = Ed25519Verifier::load(&keys[1]).unwrap();

    let content = "hello!";
    let sig = sk.encrypt(content).unwrap();
    let ok = pk.decrypt(content, &sig).unwrap();
    assert!(ok);
}

#[test]
fn blake3_tag_is_deterministic_and_32_bytes() {
    let key = "0123456789ABCDEFGHIJKLMNOPQRSTUV";
    let content = "test_content";
    let signer = Blake3::try_new(key).unwrap();

    let tag1 = signer.encrypt(content).unwrap();
    let tag2 = signer.encrypt(content).unwrap();
    assert_eq!(tag1.len(), 32);
    assert_eq!(tag1, tag2);
    assert!(signer.decrypt(content, &tag1).unwrap());
}

#[test]
fn blake3_tag_matches_the_keyed_hash() {
    let key = "0123456789ABCDEFGHIJKLMNOPQRSTUV";
    let content = "test_content";
    let signer = Blake3::try_new(key).unwrap();
    let tag = signer.encrypt(content).unwrap();

    let mut key32 = [0u8; 32];
    key32.copy_from_slice(&key.as_bytes()[..32]);
    let expected = blake3::keyed_hash(&key32, content.as_bytes());
    assert_eq!(tag.as_slice(), expected.as_bytes());
}

#[test]
fn blake3_verify_rejects_mismatched_key() {
    let key = "0123456789ABCDEFGHIJKLMNOPQRSTUV";
    let other = "VUTSRQPONMLKJIHGFEDCBA9876543210";
    let content = "test_content";

    let signer = Blake3::try_new(key).unwrap();
    let sig = signer.encrypt(content).unwrap();

    let wrong = Blake3::try_new(other).unwrap();
    assert!(!wrong.decrypt(content, &sig).unwrap());
}

#[test]
fn blake3_verify_rejects_tampering() {
    let key = "0123456789ABCDEFGHIJKLMNOPQRSTUV";
    let content = "test_content";
    let signer = Blake3::try_new(key).unwrap();
    let sig = signer.encrypt(content).unwrap();

    // one byte of the payload flipped
    assert!(!signer.decrypt("test_contenu", &sig).unwrap());

    // one byte of the tag flipped, length still 32
    for i in 0..sig.len() {
        let mut bad = sig.clone();
        bad[i] ^= 0x01;
        assert!(!signer.decrypt(content, &bad).unwrap());
    }

    // a tag of the wrong length is a mismatch, not an error
    assert!(!signer.decrypt(content, &sig[..31]).unwrap());
}

#[test]
fn ed25519_sign_matches_the_dalek_signature() {
    let seed = [7u8; 32];
    let signer = Ed25519::new(seed);
    let sig = signer.encrypt("hello!").unwrap();

    let sk = ed25519_dalek::SigningKey::from_bytes(&seed);
    let expected = ed25519_dalek::Signer::sign(&sk, "hello!".as_bytes());
    assert_eq!(sig.as_slice(), expected.to_bytes().as_slice());
    assert_eq!(sig.len(), 64);

    let derived = signer.verifying_key();
    assert_eq!(derived.as_slice(), sk.verifying_key().to_bytes().as_slice());
}

#[test]
fn ed25519_verify_rejects_unrelated_key_and_tampering() {
    let keys = Ed25519::generate_key().unwrap();
    let sk = Ed25519::load(&keys[0]).unwrap();
    let pk = Ed25519Verifier::load(&keys[1]).unwrap();

    let content = "hello!";
    let sig = sk.encrypt(content).unwrap();
    assert!(pk.decrypt(content, &sig).unwrap());

    // a freshly generated, unrelated public key rejects the signature
    let other_keys = Ed25519::generate_key().unwrap();
    let other_pk = Ed25519Verifier::load(&other_keys[1]).unwrap();
    assert!(!other_pk.decrypt(content, &sig).unwrap());

    // one byte of the payload flipped
    assert!(!pk.decrypt("hella!", &sig).unwrap());

    // one byte of the signature flipped, length still 64
    let mut bad = sig.clone();
    bad[3] ^= 0x01;
    assert!(!pk.decrypt(content, &bad).unwrap());
}

#[test]
fn ed25519_signer_can_verify_its_own_signature() {
    let keys = Ed25519::generate_key().unwrap();
    let sk = Ed25519::load(&keys[0]).unwrap();
    let sig = sk.encrypt("hello!").unwrap();
    assert!(sk.decrypt("hello!", &sig).unwrap());
}

#[test]
fn short_key_material_gives_key_error_for_every_algorithm() {
    let short = "0123456789ABCDEF";
    assert!(matches!(Blake3::try_new(short), Err(CryptoError::KeyError)));
    assert!(matches!(Ed25519::try_new(short), Err(CryptoError::KeyError)));
    assert!(matches!(
        Ed25519Verifier::try_new(short),
        Err(CryptoError::KeyError)
    ));

    let short_bytes = [1u8; 31];
    assert!(matches!(
        Blake3::load_key(&short_bytes),
        Err(CryptoError::KeyError)
    ));
    assert!(matches!(
        Ed25519::load_key(&short_bytes),
        Err(CryptoError::KeyError)
    ));
    assert!(matches!(
        Ed25519Verifier::load_key(&short_bytes),
        Err(CryptoError::KeyError)
    ));
    assert!(matches!(
        <Blake3 as KeyLoader>::load(&short_bytes),
        Err(CryptoError::KeyError)
    ));
}

#[test]
fn longer_key_material_is_truncated_not_padded() {
    let key40 = "0123456789ABCDEFGHIJKLMNOPQRSTUV_trailer";
    let key32 = "0123456789ABCDEFGHIJKLMNOPQRSTUV";
    let content = "payload";

    let a = Blake3::try_new(key40).unwrap().encrypt(content).unwrap();
    let b = Blake3::try_new(key32).unwrap().encrypt(content).unwrap();
    assert_eq!(a, b);
}

#[test]
fn generation_from_the_same_seed_is_deterministic() {
    let seed = [42u8; 32];
    let pk1 = Ed25519::new(seed).verifying_key();
    let pk2 = Ed25519::new(seed).verifying_key();
    assert_eq!(pk1, pk2);

    let sig1 = Ed25519::new(seed).encrypt("msg").unwrap();
    let sig2 = Ed25519::new(seed).encrypt("msg").unwrap();
    assert_eq!(sig1, sig2);
}

#[test]
fn fresh_generations_differ() {
    let a = Ed25519::generate_key().unwrap();
    let b = Ed25519::generate_key().unwrap();
    assert_ne!(a[0], b[0]);
    assert_ne!(a[1], b[1]);
}

#[test]
fn generated_keys_have_the_promised_shape() {
    let sym = process_generate(&EncryptFormat::Blake3).unwrap();
    assert_eq!(sym.len(), 1);
    assert_eq!(sym[0].len(), 32);
    assert!(sym[0].iter().all(|c| c.is_ascii_graphic()));

    let asym = process_generate(&EncryptFormat::Ed25519).unwrap();
    assert_eq!(asym.len(), 2);
    assert_eq!(asym[0].len(), 32);
    assert_eq!(asym[1].len(), 32);
    let sk = ed25519_dalek::SigningKey::from_bytes(&asym[0].clone().try_into().unwrap());
    assert_eq!(sk.verifying_key().to_bytes().as_slice(), asym[1].as_slice());
}

#[test]
fn process_encrypt_and_decrypt_round_trip() {
    let key = "0123456789ABCDEFGHIJKLMNOPQRSTUV";
    let content = "test_content";

    let sig = process_encrypt(content, &EncryptFormat::Blake3, key).unwrap();
    let sig_text = rcli::encode_bytes(&sig, &rcli::Base64Format::UrlSafe);
    let ok = process_decrypt(content, &EncryptFormat::Blake3, key, &sig_text).unwrap();
    assert!(ok);

    // seed bytes are random and rarely printable; go through the typed API
    let keys = Ed25519::generate_key().unwrap();
    let sk = Ed25519::load(&keys[0]).unwrap();
    let sig = sk.encrypt(content).unwrap();
    let sig_text = rcli::encode_bytes(&sig, &rcli::Base64Format::UrlSafe);
    let pk = Ed25519Verifier::load(&keys[1]).unwrap();
    let decoded = rcli::decode_bytes(&sig_text, &rcli::Base64Format::UrlSafe).unwrap();
    assert!(pk.decrypt(content, &decoded).unwrap());
}

#[test]
fn process_decrypt_error_cases() {
    let key = "0123456789ABCDEFGHIJKLMNOPQRSTUV";
    let content = "test_content";

    // malformed base64 signature text
    assert!(matches!(
        process_decrypt(content, &EncryptFormat::Blake3, key, "!!!not-base64!!!"),
        Err(CryptoError::EncodingError)
    ));

    // key too short
    assert!(matches!(
        process_decrypt(content, &EncryptFormat::Blake3, "short", "AAAA"),
        Err(CryptoError::KeyError)
    ));

    // ed25519: a signature of fewer than 64 bytes is structurally invalid
    let keys = Ed25519::generate_key().unwrap();
    let pk = Ed25519Verifier::load(&keys[1]).unwrap();
    assert!(matches!(
        pk.decrypt(content, &[1u8; 10]),
        Err(CryptoError::EncodingError)
    ));

    // blake3: a wrong-length tag is a mismatch, not an error
    let tag_text = rcli::encode_bytes(&[1u8; 10], &rcli::Base64Format::UrlSafe);
    assert_eq!(
        process_decrypt(content, &EncryptFormat::Blake3, key, &tag_text),
        Ok(false)
    );
}

#[test]
fn parse_format_names() {
    assert!(matches!(parse_format("blake3"), Ok(EncryptFormat::Blake3)));
    assert!(matches!(parse_format("ed25519"), Ok(EncryptFormat::Ed25519)));
    assert_eq!(parse_format("rsa"), Err("Invalid format."));
}

#[test]
fn crypto_error_messages() {
    assert_eq!(
        CryptoError::KeyError.message(),
        "key material invalid: need at least 32 bytes"
    );
    assert_eq!(
        CryptoError::EncodingError.message(),
        "malformed signature or key encoding"
    );
}
