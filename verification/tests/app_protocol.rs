use servo_bridge::app_protocol::{resource_path, AppProtocolHandler};

#[test]
fn ui_dir_below_working_directory() {
    assert_eq!(AppProtocolHandler::ui_dir("/home/u/servo"), "/home/u/servo/ports/sdl2_test/ui");
}

#[test]
fn app_file_path() {
    let h = AppProtocolHandler;
    assert_eq!(h.file_path("/w", "/index.html"), "/w/ports/sdl2_test/ui/index.html");
    assert_eq!(h.file_path("/w/", "///a/b.js"), "/w/ports/sdl2_test/ui/a/b.js");
}

#[test]
fn app_not_found_page() {
    let h = AppProtocolHandler;
    let body = h.respond("/w/x.html", None);
    assert_eq!(
        String::from_utf8(body).unwrap(),
        "<html><body><h1>404 Not Found: /w/x.html</h1></body></html>"
    );
    assert_eq!(h.respond("/w/x.html", Some(b"hi".to_vec())), b"hi".to_vec());
}

#[test]
fn resources_below_working_directory() {
    assert_eq!(resource_path("/w", "user-agent-js/a.js"), "/w/resources/user-agent-js/a.js");
}
