use blob_gateway::identity::{
    load_or_generate_secret_key, IdentityError, KeyFile, KeyProvision, PublicIdentity, SecretKey,
    KEY_LENGTH,
};

fn sample_key_bytes() -> [u8; 32] {
    [
        7, 248, 9, 217, 34, 111, 158, 135, 199, 100, 110, 193, 1, 232, 53, 11, 121, 235, 201, 241,
        64, 188, 34, 219, 189, 167, 10, 134, 165, 2, 59, 254,
    ]
}

#[test]
fn key_file_of_32_bytes_is_the_key() {
    let contents = sample_key_bytes();
    let key = SecretKey::from_file_bytes(&contents).expect("32 bytes are a key");
    assert_eq!(key.to_bytes(), contents);
    assert_eq!(KEY_LENGTH, 32);
}

#[test]
fn key_file_of_any_other_length_is_corrupt() {
    for length in [0usize, 1, 16, 31, 33, 64, 1000] {
        let contents = vec![9u8; length];
        match SecretKey::from_file_bytes(&contents) {
            Err(error) => assert_eq!(error, IdentityError::IdentityFileCorrupt),
            Ok(_) => panic!("a file of {} bytes was taken for a key", length),
        }
        match load_or_generate_secret_key(&KeyFile::Contents(contents.clone())) {
            Err(error) => assert_eq!(error, IdentityError::IdentityFileCorrupt),
            Ok(_) => panic!("a file of {} bytes was taken for a key", length),
        }
    }
}

#[test]
fn existing_key_file_is_loaded_and_never_rewritten() {
    let contents = sample_key_bytes();
    match load_or_generate_secret_key(&KeyFile::Contents(contents.to_vec())) {
        Ok(provision) => {
            assert!(matches!(provision, KeyProvision::Loaded(_)));
            assert_eq!(provision.file_contents_to_write(), None);
            assert_eq!(provision.key().to_bytes(), contents);
            assert_eq!(provision.into_key().to_bytes(), contents);
        }
        Err(error) => panic!("the key file was refused: {:?}", error),
    }
}

#[test]
fn same_key_file_gives_the_same_identity_every_time() {
    let contents = sample_key_bytes();
    let file = KeyFile::Contents(contents.to_vec());
    let first = load_or_generate_secret_key(&file).unwrap().into_key().public();
    let second = load_or_generate_secret_key(&file).unwrap().into_key().public();
    assert_eq!(first, second);
    assert!(first.same_as(&second));
    assert_eq!(first.to_text(), second.to_text());
}

#[test]
fn missing_key_file_gets_a_new_key_that_reloads() {
    let created =
        load_or_generate_secret_key(&KeyFile::Absent).expect("the system has random bytes");
    assert!(matches!(created, KeyProvision::Created(_)));
    let to_write = created.file_contents_to_write().expect("a new key has to be written");
    assert_eq!(to_write.len(), 32);
    assert_eq!(to_write, created.key().to_bytes());
    let identity = created.key().public();

    let reloaded = load_or_generate_secret_key(&KeyFile::Contents(to_write.to_vec()))
        .expect("the new file is a key");
    assert!(matches!(reloaded, KeyProvision::Loaded(_)));
    assert_eq!(reloaded.file_contents_to_write(), None);
    assert_eq!(reloaded.key().to_bytes(), to_write);
    assert_eq!(reloaded.key().public(), identity);
}

#[test]
fn unreadable_key_file_is_corrupt_and_no_key_is_made() {
    match load_or_generate_secret_key(&KeyFile::Unreadable) {
        Err(error) => assert_eq!(error, IdentityError::IdentityFileCorrupt),
        Ok(_) => panic!("a key came of a file that could not be read"),
    }
}

#[test]
fn new_keys_differ_from_each_other() {
    let first = SecretKey::generate().expect("the system has random bytes");
    let second = SecretKey::generate().expect("the system has random bytes");
    assert_ne!(first.to_bytes(), second.to_bytes());
    assert_ne!(first.to_bytes(), [0u8; 32]);
}

#[test]
fn a_draw_of_random_bytes_is_the_new_key() {
    let key = SecretKey::from_entropy(Some([5u8; 32])).expect("bytes were drawn");
    assert_eq!(key.to_bytes(), [5u8; 32]);
    match SecretKey::from_entropy(None) {
        Err(error) => assert_eq!(error, IdentityError::EntropyUnavailable),
        Ok(_) => panic!("a key came of no bytes"),
    }
}

#[test]
fn public_identity_is_the_one_that_the_transport_derives() {
    let contents = sample_key_bytes();
    let key = SecretKey::from_bytes(contents);
    let identity = key.public();
    let expected = iroh::SecretKey::from_bytes(&contents).public();
    assert_eq!(identity.as_bytes(), expected.as_bytes());
    assert_ne!(identity.as_bytes(), &contents);
    assert!(identity.is_valid());
}

#[test]
fn identity_text_is_the_transport_s_own_rendering() {
    let identity = SecretKey::from_bytes(sample_key_bytes()).public();
    let expected = iroh::SecretKey::from_bytes(&sample_key_bytes()).public().to_string();
    assert_eq!(identity.to_text(), expected);
    assert_eq!(identity.to_text().len(), 64);

    let listed: [u8; 32] = [
        174, 88, 255, 136, 51, 36, 26, 200, 45, 111, 247, 97, 16, 70, 237, 103, 181, 7, 45, 20, 44,
        88, 141, 0, 99, 233, 66, 217, 167, 85, 2, 182,
    ];
    assert_eq!(
        PublicIdentity::from_bytes(listed).to_text(),
        "ae58ff8833241ac82d6ff7611046ed67b5072d142c588d0063e942d9a75502b6"
    );
}

#[test]
fn validity_of_an_identity_is_the_transport_s_judgement() {
    let mut accepted = 0;
    let mut refused = 0;
    for seed in 0..=255u8 {
        let mut bytes = [seed; 32];
        bytes[0] = seed.wrapping_mul(13).wrapping_add(1);
        let ours = PublicIdentity::from_bytes(bytes).is_valid();
        let theirs = iroh::PublicKey::from_bytes(&bytes).is_ok();
        assert_eq!(ours, theirs);
        if ours {
            accepted += 1;
        } else {
            refused += 1;
        }
    }
    assert!(accepted > 0);
    assert!(refused > 0);
}
