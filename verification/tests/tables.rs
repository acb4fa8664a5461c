use protobuf::descriptor::FileDescriptorProto;
use protobuf_codegen_pure::embedded::embedded;
use protobuf_codegen_pure::linked_hash_map::LinkedHashMap;
use protobuf_codegen_pure::text::{from_chars, same_text, to_chars};
use protobuf_codegen_pure::{
    FileDescriptorPair, FileModel, Import, ImportVis, PathError, ProtoPathBuf, Run,
};

fn path(text: &str) -> ProtoPathBuf {
    ProtoPathBuf::new(text.to_string()).unwrap()
}

fn pair(package: &str, imports: &[&str]) -> FileDescriptorPair {
    let mut descriptor = FileDescriptorProto::new();
    descriptor.package = Some(package.to_string());
    FileDescriptorPair {
        parsed: FileModel {
            imports: imports
                .iter()
                .map(|p| Import { path: path(p), vis: ImportVis::Default })
                .collect(),
            package: package.to_string(),
        },
        descriptor,
    }
}

#[test]
fn the_map_keeps_the_order_of_insertion() {
    let mut map = LinkedHashMap::new();
    assert_eq!(map.len(), 0);
    assert!(map.insert(path("z.proto"), pair("z", &[])));
    assert!(map.insert(path("a.proto"), pair("a", &["z.proto"])));
    assert!(map.insert(path("m.proto"), pair("m", &[])));
    assert_eq!(map.len(), 3);
    assert_eq!(map.key_at(0).to_str(), "z.proto");
    assert_eq!(map.key_at(1).to_str(), "a.proto");
    assert_eq!(map.key_at(2).to_str(), "m.proto");
    assert_eq!(map.value_at(1).parsed.imports.len(), 1);
    let packages: Vec<String> =
        map.into_descriptors().iter().map(|d| d.package().to_string()).collect();
    assert_eq!(packages, vec!["z", "a", "m"]);
}

#[test]
fn the_map_holds_a_path_once() {
    let mut map = LinkedHashMap::new();
    assert!(map.insert(path("a.proto"), pair("first", &[])));
    assert!(map.insert(path("b.proto"), pair("other", &[])));
    assert!(!map.insert(path("a.proto"), pair("second", &[])));
    assert_eq!(map.len(), 2);
    assert_eq!(map.get(&path("a.proto")).unwrap().parsed.package, "first");
    assert!(map.contains_key(&path("b.proto")));
    assert!(!map.contains_key(&path("c.proto")));
    assert!(map.get(&path("c.proto")).is_none());
    let entries = map.into_entries();
    assert_eq!(entries.len(), 2);
    assert_eq!(entries[0].0.to_str(), "a.proto");
    assert_eq!(entries[1].1, pair("other", &[]));
}

#[test]
fn a_copy_of_a_pair_holds_the_same_descriptor() {
    let original = pair("p", &["x.proto", "y.proto"]);
    let copy = original.clone();
    assert_eq!(copy, original);
    assert_eq!(copy.descriptor.package(), "p");
    assert_eq!(copy.parsed.imports[1].path.to_str(), "y.proto");
}

#[test]
fn twelve_schemas_are_built_in() {
    let known = [
        ("rustproto.proto", "extend google.protobuf.FileOptions"),
        ("google/protobuf/any.proto", "message Any"),
        ("google/protobuf/api.proto", "message Api"),
        ("google/protobuf/descriptor.proto", "message FileDescriptorProto"),
        ("google/protobuf/duration.proto", "message Duration"),
        ("google/protobuf/empty.proto", "message Empty"),
        ("google/protobuf/field_mask.proto", "message FieldMask"),
        ("google/protobuf/source_context.proto", "message SourceContext"),
        ("google/protobuf/struct.proto", "message Struct"),
        ("google/protobuf/timestamp.proto", "message Timestamp"),
        ("google/protobuf/type.proto", "message Type"),
        ("google/protobuf/wrappers.proto", "message DoubleValue"),
    ];
    assert_eq!(known.len(), 12);
    for (name, mark) in known {
        let text = embedded(name).unwrap();
        assert!(text.contains(mark), "{}", name);
        assert!(text.contains("syntax = "), "{}", name);
    }
    assert!(embedded("google/protobuf/descriptor.proto").unwrap().len() > 30000);
    assert!(embedded("google/protobuf/descriptor.proto")
        .unwrap()
        .trim_end()
        .ends_with('}'));
}

#[test]
fn a_built_in_schema_is_found_by_its_exact_path_only() {
    assert!(embedded("google/protobuf/Any.proto").is_none());
    assert!(embedded("any.proto").is_none());
    assert!(embedded("google/protobuf/any").is_none());
    assert!(embedded("./google/protobuf/any.proto").is_none());
    assert!(embedded("google/protobuf/any.proto ").is_none());
    assert!(embedded("google/protobuf/compiler/plugin.proto").is_none());
    assert!(embedded("").is_none());
}

#[test]
fn a_path_is_taken_relative_to_a_directory() {
    let strip = |p: &str, dir: &str| Run::strip_prefix(p, dir).map(|r| r.to_string());
    assert_eq!(strip("protos/a.proto", "protos"), Ok("a.proto".to_string()));
    assert_eq!(strip("protos/sub/a.proto", "protos/"), Ok("sub/a.proto".to_string()));
    assert_eq!(strip("protos//sub/./a.proto", "./protos"), Err(PathError::NotPrefix));
    assert_eq!(strip("./protos/a.proto", "./protos"), Ok("a.proto".to_string()));
    assert_eq!(strip("/abs/protos/a.proto", "/abs"), Ok("protos/a.proto".to_string()));
    assert_eq!(strip("protos", "protos"), Ok(String::new()));
    assert_eq!(strip("a.proto", ""), Ok("a.proto".to_string()));
    assert_eq!(strip("/a.proto", ""), Err(PathError::Absolute));
}

#[test]
fn a_path_that_does_not_start_with_a_directory_is_not_in_it() {
    let strip = |p: &str, dir: &str| Run::strip_prefix(p, dir).map(|r| r.to_string());
    assert_eq!(strip("protos2/a.proto", "protos"), Err(PathError::NotPrefix));
    assert_eq!(strip("a.proto", "protos"), Err(PathError::NotPrefix));
    assert_eq!(strip("protos/a.proto", "protos/sub"), Err(PathError::NotPrefix));
    assert_eq!(strip("protos/a.proto", "/protos"), Err(PathError::NotPrefix));
    assert_eq!(strip("protos/../a.proto", "protos"), Err(PathError::DotDot));
    assert_eq!(strip("../a.proto", ".."), Ok("a.proto".to_string()));
}

#[test]
fn every_relative_path_is_in_the_current_directory() {
    let strip = |p: &str, dir: &str| Run::strip_prefix(p, dir).map(|r| r.to_string());
    assert_eq!(strip("foo.proto", "."), Ok("foo.proto".to_string()));
    assert_eq!(strip("a/b/foo.proto", "."), Ok("a/b/foo.proto".to_string()));
    assert_eq!(strip("./foo.proto", "."), Ok("foo.proto".to_string()));
    assert_eq!(strip("a//b/./foo.proto", "./"), Ok("a/b/foo.proto".to_string()));
    assert_eq!(strip("a/../foo.proto", "."), Err(PathError::DotDot));
    assert_eq!(strip("/foo.proto", "."), Err(PathError::NotPrefix));
}

#[test]
fn stripping_agrees_with_std_on_this_host() {
    let cases = [
        ("protos/a.proto", "protos"),
        ("protos/sub/a.proto", "protos/"),
        ("./protos/a.proto", "./protos"),
        ("/abs/protos/a.proto", "/abs"),
        ("a.proto", ""),
        ("protos2/a.proto", "protos"),
        ("protos/a.proto", "/protos"),
        ("protos//sub/./a.proto", "protos"),
        ("x/y/z.proto", "x/y"),
        ("x/y/z.proto", "x//y/."),
    ];
    for (p, dir) in cases {
        let std_rest = std::path::Path::new(p).strip_prefix(dir).ok().map(|rest| {
            let names: Vec<&str> = rest.iter().map(|name| name.to_str().unwrap()).collect();
            names.join("/")
        });
        let rest = Run::strip_prefix(p, dir).ok().map(|r| r.to_string());
        assert_eq!(rest, std_rest, "{:?} in {:?}", p, dir);
    }
}

#[test]
fn texts_and_characters_convert_both_ways() {
    assert_eq!(to_chars("a/b"), vec!['a', '/', 'b']);
    assert_eq!(to_chars(""), Vec::<char>::new());
    assert_eq!(from_chars(&vec!['x', '.', 'p']), "x.p");
    assert_eq!(from_chars(&to_chars("gr\u{fc}n/\u{4e2d}")), "gr\u{fc}n/\u{4e2d}");
    assert!(same_text("abc", "abc"));
    assert!(!same_text("abc", "abd"));
    assert!(!same_text("abc", "ab"));
    assert!(same_text("", ""));
}
