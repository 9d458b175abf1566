use servo_bridge::directory::DirectoryProtocolHandler;

#[test]
fn serves_below_root() {
    let h = DirectoryProtocolHandler::new("/srv/ui".to_string());
    assert_eq!(h.root(), "/srv/ui");
    assert_eq!(h.file_path("/index.html"), "/srv/ui/index.html");
    assert_eq!(h.file_path("//css/main.css"), "/srv/ui/css/main.css");
    assert_eq!(h.file_path("/"), "/srv/ui/");
}

#[test]
fn missing_file_gets_not_found_page() {
    let r = DirectoryProtocolHandler::respond("/srv/ui/nope.html", None);
    assert_eq!(
        String::from_utf8(r.body).unwrap(),
        "<html><body>404: /srv/ui/nope.html</body></html>"
    );
    assert_eq!(r.content_type, "text/html");
}

#[test]
fn read_file_is_served_unchanged() {
    let r = DirectoryProtocolHandler::respond("/srv/ui/app.js", Some(vec![1, 2, 3]));
    assert_eq!(r.body, vec![1, 2, 3]);
    assert_eq!(r.content_type, "text/javascript");
}

#[test]
fn content_type_from_extension() {
    assert_eq!(DirectoryProtocolHandler::content_type("/srv/ui/index.html"), "text/html");
    assert_eq!(DirectoryProtocolHandler::content_type("/srv/ui/logo.png"), "image/png");
    assert_eq!(DirectoryProtocolHandler::content_type("/srv/ui/LICENSE"), "application/octet-stream");
    assert_eq!(DirectoryProtocolHandler::content_type("/srv/v1.0/LICENSE"), "application/octet-stream");
    assert_eq!(DirectoryProtocolHandler::content_type("/srv/ui/data.unknownext"), "application/octet-stream");
}

#[test]
fn always_fetchable_and_secure() {
    let h = DirectoryProtocolHandler::new(String::new());
    assert!(h.is_fetchable());
    assert!(h.is_secure());
}
