use file_exchange::HelloApp;

#[test]
fn uploads_are_confirmed_and_listed_in_order() {
    let mut app = HelloApp::init();
    assert_eq!(app.say_hello(), "Hello from Calimero Node!");
    assert_eq!(app.upload_file("a.txt".to_string(), vec![1, 2]), Ok("File 'a.txt' uploaded successfully".to_string()));
    assert_eq!(app.upload_file("b.txt".to_string(), vec![]), Ok("File 'b.txt' uploaded successfully".to_string()));
    assert_eq!(app.get_file_names(), vec!["a.txt".to_string(), "b.txt".to_string()]);
}
