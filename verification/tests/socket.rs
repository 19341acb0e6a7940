use std::path::{Path, PathBuf};
use wallswitcher::socket::{socket_location, RUNTIME_DIR_KEY, SOCKET_NAME};

#[test]
fn socket_names() {
    assert_eq!(SOCKET_NAME, "wallswitcher.sock");
    assert_eq!(RUNTIME_DIR_KEY, "XDG_RUNTIME_DIR");
}

#[test]
fn socket_lies_in_the_runtime_directory() {
    assert_eq!(socket_location("/run/user/1000"), "/run/user/1000/wallswitcher.sock");
    assert_eq!(socket_location("/tmp"), "/tmp/wallswitcher.sock");
    assert_eq!(socket_location("run"), "run/wallswitcher.sock");
    assert_eq!(socket_location("/höme/ü"), "/höme/ü/wallswitcher.sock");
}

#[test]
fn a_trailing_slash_is_not_doubled() {
    assert_eq!(socket_location("/run/user/1000/"), "/run/user/1000/wallswitcher.sock");
    assert_eq!(socket_location("/"), "/wallswitcher.sock");
    assert_eq!(socket_location("/tmp//"), "/tmp//wallswitcher.sock");
}

#[test]
fn an_empty_runtime_directory_gives_the_bare_name() {
    assert_eq!(socket_location(""), "wallswitcher.sock");
}

#[test]
fn socket_location_is_the_joined_path() {
    let dirs = [
        "",
        "/",
        "//",
        ".",
        "..",
        "run",
        "run/",
        "/run/user/1000",
        "/run/user/1000/",
        "/run/user/1000//",
        "/run/./user/../1000",
        "/tmp/with space",
        "/tmp/with\\backslash",
        "/höme/ü",
        "/tmp/\u{2028}",
    ];
    for dir in dirs {
        let joined = Path::new(dir).join(Path::new(SOCKET_NAME));
        assert_eq!(socket_location(dir).as_bytes(), joined.as_os_str().as_encoded_bytes());
        assert_eq!(PathBuf::from(socket_location(dir)), joined);
    }
}
