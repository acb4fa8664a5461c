use protobuf_codegen_pure::{
    parse_dependencies, FileModel, Import, ImportVis, ParserErrorWithLocation, ProtoPathBuf,
};

fn import(path: &str, vis: ImportVis) -> Import {
    Import { path: ProtoPathBuf::new(path.to_string()).unwrap(), vis }
}

#[test]
fn imports_are_listed_with_the_places_of_the_public_and_the_weak() {
    let parsed = FileModel {
        imports: vec![
            import("a.proto", ImportVis::Default),
            import("b/c.proto", ImportVis::Public),
            import("d.proto", ImportVis::Weak),
            import("e.proto", ImportVis::Public),
        ],
        package: "p".to_string(),
    };
    let descriptor = parse_dependencies(Ok(parsed)).unwrap();
    assert_eq!(descriptor.dependency, vec!["a.proto", "b/c.proto", "d.proto", "e.proto"]);
    assert_eq!(descriptor.public_dependency, vec![1, 3]);
    assert_eq!(descriptor.weak_dependency, vec![2]);
    assert!(descriptor.name.is_none());
    assert!(descriptor.package.is_none());
    assert!(descriptor.message_type.is_empty());
}

#[test]
fn a_file_without_imports_has_an_empty_descriptor() {
    let parsed = FileModel { imports: Vec::new(), package: String::new() };
    let descriptor = parse_dependencies(Ok(parsed)).unwrap();
    assert_eq!(descriptor, protobuf::descriptor::FileDescriptorProto::new());
}

#[test]
fn a_fault_in_the_text_is_handed_on() {
    let fault = ParserErrorWithLocation { message: "expected `;`".to_string(), line: 3, col: 14 };
    let same = ParserErrorWithLocation { message: "expected `;`".to_string(), line: 3, col: 14 };
    assert_eq!(parse_dependencies(Err(fault)), Err(same));
}
