use ed25519_dalek::{Signer, SigningKey};
use file_exchange::{FileError, FileEvent, FileExchangeApp, Raw, Repr, User};

fn create_test_user() -> (User, SigningKey) {
    let signing_key = SigningKey::from_bytes(&rand::random::<[u8; 32]>());
    let verifying_key = signing_key.verifying_key();
    let user = User {
        peer_id: "test-peer-id".to_string(),
        public_key: Repr::<[u8; 32], Raw>::raw(verifying_key.to_bytes()),
        name: Some("Test User".to_string()),
    };
    (user, signing_key)
}

#[test]
fn test_file_upload() {
    let mut app = FileExchangeApp::init();
    let (user, signing_key) = create_test_user();
    let filename = "test.txt".to_string();
    let content = b"Hello, World!".to_vec();
    let signature = signing_key.sign(&content);
    let result = app.upload_file(
        filename.clone(),
        content,
        user.peer_id.clone(),
        Repr::raw(*user.public_key.get()),
        signature.to_bytes(),
    );
    assert!(result.is_ok());
    let file_id = result.unwrap();
    let stored_file = app.get_file(file_id).expect("File should exist");
    assert_eq!(stored_file.filename, filename);
    assert_eq!(stored_file.owner.peer_id, user.peer_id);
}

#[test]
fn test_file_exchange() {
    let mut app = FileExchangeApp::init();
    let (user1, signing_key1) = create_test_user();
    let (user2, _) = create_test_user();
    let filename = "test.txt".to_string();
    let content = b"Hello, World!".to_vec();
    let signature = signing_key1.sign(&content);
    let file_id = app
        .upload_file(filename, content, user1.peer_id.clone(), Repr::raw(*user1.public_key.get()), signature.to_bytes())
        .unwrap();
    let result = app.exchange_file(file_id, user2.peer_id.clone());
    assert!(result.is_ok());
    let stored_file = app.get_file(file_id).expect("File should exist");
    assert_eq!(stored_file.owner.peer_id, user2.peer_id);
}

#[test]
fn upload_with_bad_signature_is_refused() {
    let mut app = FileExchangeApp::init();
    let (user, signing_key) = create_test_user();
    let signature = signing_key.sign(b"other content");
    let r = app.upload_file(
        "a".to_string(),
        b"content".to_vec(),
        user.peer_id.clone(),
        Repr::raw(*user.public_key.get()),
        signature.to_bytes(),
    );
    assert_eq!(r, Err(FileError::InvalidSignature));
    assert!(app.get_file(0).is_none());
    assert!(app.take_events().is_empty());
}

#[test]
fn identifiers_are_sequential_and_exchange_names_previous_owner() {
    let mut app = FileExchangeApp::init();
    let key = SigningKey::from_bytes(&[3u8; 32]);
    let pk = key.verifying_key().to_bytes();
    for (i, name) in ["a", "b"].iter().enumerate() {
        let content = name.as_bytes().to_vec();
        let sig = key.sign(&content).to_bytes();
        assert_eq!(app.upload_file(name.to_string(), content, "alice".to_string(), Repr::raw(pk), sig), Ok(i as u64));
    }
    assert_eq!(app.exchange_file(1, "bob".to_string()), Ok(()));
    assert_eq!(app.exchange_file(2, "bob".to_string()), Err(FileError::NotFound));
    let f = app.get_file(1).unwrap();
    assert_eq!(f.owner.peer_id, "bob");
    assert_eq!(*f.owner.public_key.get(), pk);
    assert_eq!(f.content, b"b".to_vec());
    assert_eq!(app.get_file(0).unwrap().owner.peer_id, "alice");
    let events = app.take_events();
    assert_eq!(
        events[2],
        FileEvent::FileExchanged { file_id: 1, from: "alice".to_string(), to: "bob".to_string() }
    );
    assert_eq!(
        events[0],
        FileEvent::FileUploaded { file_id: 0, owner: "alice".to_string(), filename: "a".to_string() }
    );
}
