use file_exchange::{Event, FileExchangeError, FileExchangeState};

fn s(x: &str) -> String {
    x.to_string()
}

#[test]
fn upload_then_download_returns_content() {
    let mut st = FileExchangeState::init();
    assert_eq!(st.upload_file(s("a.txt"), s("hello"), s("alice")), Ok(()));
    assert_eq!(st.download_file(s("a.txt"), s("bob")), Ok(s("hello")));
    let events = st.take_events();
    assert_eq!(
        events,
        vec![
            Event::FileUploaded { name: s("a.txt"), owner: s("alice") },
            Event::FileDownloaded { name: s("a.txt"), downloader: s("bob") },
        ]
    );
    assert!(st.take_events().is_empty());
}

#[test]
fn second_upload_of_same_name_is_rejected() {
    let mut st = FileExchangeState::init();
    assert_eq!(st.upload_file(s("f"), s("first"), s("alice")), Ok(()));
    assert_eq!(st.upload_file(s("f"), s("second"), s("bob")), Err(FileExchangeError::AlreadyExists));
    assert_eq!(st.download_file(s("f"), s("carol")), Ok(s("first")));
    let events = st.take_events();
    assert_eq!(events.len(), 2);
}

#[test]
fn download_of_never_uploaded_name_fails() {
    let mut st = FileExchangeState::init();
    assert_eq!(st.download_file(s("missing"), s("bob")), Err(FileExchangeError::FileNotFound));
    st.upload_file(s("other"), s("x"), s("alice")).unwrap();
    assert_eq!(st.download_file(s("missing"), s("bob")), Err(FileExchangeError::FileNotFound));
    assert_eq!(st.download_file(s(""), s("bob")), Err(FileExchangeError::FileNotFound));
}

#[test]
fn delete_requires_owner() {
    let mut st = FileExchangeState::init();
    st.upload_file(s("f"), s("data"), s("alice")).unwrap();
    assert_eq!(st.delete_file(s("f"), s("mallory")), Err(FileExchangeError::Unauthorized));
    assert_eq!(st.download_file(s("f"), s("bob")), Ok(s("data")));
    assert_eq!(st.delete_file(s("f"), s("alice")), Ok(()));
    assert_eq!(st.download_file(s("f"), s("bob")), Err(FileExchangeError::FileNotFound));
    assert_eq!(st.delete_file(s("f"), s("alice")), Err(FileExchangeError::FileNotFound));
}

#[test]
fn delete_emits_event_and_frees_name() {
    let mut st = FileExchangeState::init();
    st.upload_file(s("f"), s("one"), s("alice")).unwrap();
    st.delete_file(s("f"), s("alice")).unwrap();
    let events = st.take_events();
    assert_eq!(events[1], Event::FileDeleted { name: s("f") });
    assert_eq!(st.upload_file(s("f"), s("two"), s("bob")), Ok(()));
    assert_eq!(st.download_file(s("f"), s("x")), Ok(s("two")));
}

#[test]
fn list_files_names_each_file_once() {
    let mut st = FileExchangeState::init();
    assert_eq!(st.list_files(), Ok(vec![]));
    st.upload_file(s("a"), s("1"), s("o")).unwrap();
    st.upload_file(s("b"), s("2"), s("o")).unwrap();
    st.upload_file(s("c"), s("3"), s("o")).unwrap();
    st.delete_file(s("b"), s("o")).unwrap();
    let mut names = st.list_files().unwrap();
    names.sort();
    assert_eq!(names, vec![s("a"), s("c")]);
}
