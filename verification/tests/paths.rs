use noteworthy::paths::{is_root_path, join_path, parent_path};

fn chars(s: &str) -> Vec<char> {
    s.chars().collect()
}

fn parent(p: &str) -> String {
    parent_path(&chars(p)).iter().collect()
}

fn join(dir: &str, name: &str) -> String {
    join_path(&chars(dir), &chars(name)).iter().collect()
}

#[test]
fn root_is_made_of_separators_only() {
    assert!(is_root_path(&chars("/")));
    assert!(is_root_path(&chars("//")));
    assert!(!is_root_path(&chars("")));
    assert!(!is_root_path(&chars("/home")));
    assert!(!is_root_path(&chars("/home/")));
    assert!(!is_root_path(&chars("home")));
}

#[test]
fn parent_path_removes_the_last_component() {
    assert_eq!(parent("/home/user"), "/home");
    assert_eq!(parent("/home/user/"), "/home");
    assert_eq!(parent("/home/"), "/");
    assert_eq!(parent("/home"), "/");
    assert_eq!(parent("/a//b//"), "/a");
    assert_eq!(parent("a/b"), "a");
    assert_eq!(parent("a"), "");
    assert_eq!(parent(""), "");
    assert_eq!(parent("/"), "/");
}

#[test]
fn parent_path_agrees_with_std_on_plain_paths() {
    for p in ["/home/user", "/home/user/", "/home/", "/home", "/a//b//", "a/b", "a", "/x/y/z.txt"] {
        let expected = std::path::Path::new(p).parent().unwrap().to_str().unwrap().to_string();
        assert_eq!(parent(p), expected, "{:?}", p);
    }
}

#[test]
fn join_path_puts_one_separator_between_directory_and_name() {
    assert_eq!(join("/home", "user"), "/home/user");
    assert_eq!(join("/home/", "user"), "/home/user");
    assert_eq!(join("/", "etc"), "/etc");
    assert_eq!(join("", "etc"), "etc");
    assert_eq!(join("a", "b"), "a/b");
}

#[test]
fn join_path_agrees_with_std() {
    for (dir, name) in [("/home", "user"), ("/home/", "user"), ("/", "etc"), ("a", "b"), ("", "x")] {
        let expected = std::path::Path::new(dir).join(name).to_str().unwrap().to_string();
        assert_eq!(join(dir, name), expected);
    }
}

#[test]
fn going_into_an_entry_and_up_again_leads_back() {
    for dir in ["/", "/home", "/home/", "/a/b", "a", ""] {
        let child = join(dir, "sub");
        let normal = if dir == "/" { "/" } else { dir.trim_end_matches('/') };
        assert_eq!(parent(&child), normal);
        assert!(!is_root_path(&chars(&child)));
    }
}
