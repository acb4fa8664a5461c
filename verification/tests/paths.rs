use protobuf_codegen_pure::path::{components, is_absolute, join, Component};
use protobuf_codegen_pure::proto_path::{PathError, ProtoPathBuf};

fn names(path: &str) -> Vec<String> {
    components(path)
        .into_iter()
        .map(|c| match c {
            Component::RootDir => "/".to_string(),
            Component::CurDir => ".".to_string(),
            Component::ParentDir => "..".to_string(),
            Component::Normal(name) => format!("<{}>", name),
        })
        .collect()
}

#[test]
fn components_skip_empty_names_and_inner_dots() {
    assert_eq!(names("a/./b//c/"), vec!["<a>", "<b>", "<c>"]);
    assert_eq!(names("./a/b"), vec![".", "<a>", "<b>"]);
    assert_eq!(names("/a/../b"), vec!["/", "<a>", "..", "<b>"]);
    assert_eq!(names("/./a"), vec!["/", "<a>"]);
    assert_eq!(names(""), Vec::<String>::new());
    assert_eq!(names("."), vec!["."]);
    assert_eq!(names("..."), vec!["<...>"]);
}

#[test]
fn components_agree_with_std_on_this_host() {
    for p in ["a/./b//c/", "./a/b", "/a/../b", "/./a", "", ".", "a/b/.", "x.proto", ".//./a"] {
        let std_names: Vec<String> = std::path::Path::new(p)
            .components()
            .map(|c| match c {
                std::path::Component::RootDir => "/".to_string(),
                std::path::Component::CurDir => ".".to_string(),
                std::path::Component::ParentDir => "..".to_string(),
                std::path::Component::Normal(n) => format!("<{}>", n.to_str().unwrap()),
                std::path::Component::Prefix(_) => unreachable!(),
            })
            .collect();
        assert_eq!(names(p), std_names, "path {:?}", p);
    }
}

#[test]
fn join_puts_one_separator_between() {
    assert_eq!(join("protos", "a/b.proto"), "protos/a/b.proto");
    assert_eq!(join("protos/", "a.proto"), "protos/a.proto");
    assert_eq!(join("", "a.proto"), "a.proto");
    assert_eq!(join("protos", "/abs.proto"), "/abs.proto");
    assert_eq!(join(".", "a.proto"), "./a.proto");
}

#[test]
fn absolute_paths_start_with_a_separator() {
    assert!(is_absolute("/a"));
    assert!(!is_absolute("a/b"));
    assert!(!is_absolute(""));
}

#[test]
fn new_checks_the_text() {
    assert_eq!(ProtoPathBuf::new("a/b.proto".to_string()).unwrap().to_str(), "a/b.proto");
    assert_eq!(ProtoPathBuf::new(String::new()), Err(PathError::Empty));
    assert_eq!(ProtoPathBuf::new("a\\b".to_string()), Err(PathError::Backslashes));
    assert_eq!(ProtoPathBuf::new("a//b".to_string()), Err(PathError::EmptyComponent));
    assert_eq!(ProtoPathBuf::new("/a".to_string()), Err(PathError::EmptyComponent));
    assert_eq!(ProtoPathBuf::new("a/".to_string()), Err(PathError::EmptyComponent));
    assert_eq!(ProtoPathBuf::new("a/./b".to_string()), Err(PathError::Dot));
    assert_eq!(ProtoPathBuf::new("../b".to_string()), Err(PathError::DotDot));
    assert_eq!(ProtoPathBuf::new("a/../\\".to_string()), Err(PathError::Backslashes));
}

#[test]
fn from_path_joins_the_names() {
    assert_eq!(ProtoPathBuf::from_path("a/b.proto").unwrap().to_str(), "a/b.proto");
    assert_eq!(ProtoPathBuf::from_path("./a//b.proto").unwrap().to_str(), "a/b.proto");
    assert_eq!(ProtoPathBuf::from_path("a/./b/").unwrap().to_str(), "a/b");
    assert_eq!(ProtoPathBuf::from_path("").unwrap().to_str(), "");
    assert_eq!(ProtoPathBuf::from_path("/a"), Err(PathError::Absolute));
    assert_eq!(ProtoPathBuf::from_path("a/../b"), Err(PathError::DotDot));
}

#[test]
fn canonical_paths_round_trip_through_filesystem_paths() {
    for text in ["a.proto", "google/protobuf/any.proto", "x/y/z"] {
        let p = ProtoPathBuf::new(text.to_string()).unwrap();
        let back = ProtoPathBuf::from_path(p.to_path()).unwrap();
        assert_eq!(back, p);
        assert_eq!(back.to_string(), text);
        assert!(back.same_as(&p));
    }
}
