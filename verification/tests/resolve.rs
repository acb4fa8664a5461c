use std::collections::HashMap;

use protobuf::descriptor::FileDescriptorProto;
use protobuf_codegen_pure::embedded::embedded;
use protobuf_codegen_pure::linked_hash_map::LinkedHashMap;
use protobuf_codegen_pure::{
    parse_and_typecheck, Action, ConvertError, Error, Event, FileDescriptorPair, FileModel, Import,
    ImportVis, ParsedAndTypechecked, ParserErrorWithLocation, ProtoPathBuf, Request, Run, Step,
};

/// Files in memory, a parser and a converter for a schema language of three
/// statements, and a record of what was asked.
#[derive(Default)]
struct World {
    files: HashMap<String, String>,
    unreadable: Vec<String>,
    probed: Vec<String>,
    read: Vec<String>,
    parsed: Vec<String>,
    converted: Vec<(String, Vec<String>)>,
}

fn strings(items: &[&str]) -> Vec<String> {
    items.iter().map(|s| s.to_string()).collect()
}

fn path(text: &str) -> ProtoPathBuf {
    ProtoPathBuf::new(text.to_string()).unwrap()
}

/// The name under which the files in memory hold the file at `fs_path`.
fn on_disk(fs_path: &str) -> String {
    let names: Vec<&str> =
        fs_path.split('/').filter(|name| !name.is_empty() && *name != ".").collect();
    names.join("/")
}

fn quoted(rest: &str) -> String {
    rest.trim().trim_end_matches(';').trim().trim_matches('"').to_string()
}

/// `import "p";`, `import public "p";`, `import weak "p";` and `package p;`
/// are statements; a line that starts with `!` is a fault; any other line
/// is a declaration.
fn parse(text: &str) -> Result<FileModel, ParserErrorWithLocation> {
    let mut imports = Vec::new();
    let mut package = String::new();
    for (i, line) in text.lines().enumerate() {
        let line = line.trim();
        if line.starts_with('!') {
            return Err(ParserErrorWithLocation {
                message: "unexpected `!`".to_string(),
                line: i as u32 + 1,
                col: 1,
            });
        } else if let Some(rest) = line.strip_prefix("import public ") {
            imports.push(Import { path: path(&quoted(rest)), vis: ImportVis::Public });
        } else if let Some(rest) = line.strip_prefix("import weak ") {
            imports.push(Import { path: path(&quoted(rest)), vis: ImportVis::Weak });
        } else if let Some(rest) = line.strip_prefix("import ") {
            imports.push(Import { path: path(&quoted(rest)), vis: ImportVis::Default });
        } else if let Some(rest) = line.strip_prefix("package ") {
            package = quoted(rest);
        }
    }
    Ok(FileModel { imports, package })
}

/// The descriptor names the file, its package and its imports. A file of the
/// package `broken` cannot be converted.
fn convert(
    path: &ProtoPathBuf,
    parsed: &FileModel,
    _deps: &[(ProtoPathBuf, FileDescriptorPair)],
) -> Result<FileDescriptorProto, ConvertError> {
    if parsed.package == "broken" {
        return Err(ConvertError { message: "unresolved type".to_string() });
    }
    let mut d = FileDescriptorProto::new();
    d.name = Some(path.to_string());
    d.package = Some(parsed.package.clone());
    for import in &parsed.imports {
        d.dependency.push(import.path.to_string());
    }
    Ok(d)
}

impl World {
    fn with(files: &[(&str, &str)]) -> World {
        let mut world = World::default();
        for (name, text) in files {
            world.files.insert(name.to_string(), text.to_string());
        }
        world
    }

    fn answer(&mut self, request: Request) -> Event {
        match request {
            Request::Probe { fs_path } => {
                let found = self.files.contains_key(&on_disk(&fs_path));
                self.probed.push(fs_path);
                Event::Probed(found)
            }
            Request::Read { fs_path } => {
                self.read.push(fs_path.clone());
                if self.unreadable.contains(&fs_path) {
                    return Event::Read(Err("permission denied".to_string()));
                }
                match self.files.get(&on_disk(&fs_path)) {
                    Some(text) => Event::Read(Ok(text.clone())),
                    None => Event::Read(Err("no such file".to_string())),
                }
            }
            Request::Parse { path: _, content } => {
                let parsed = parse(&content);
                self.parsed.push(content);
                Event::Parsed(parsed)
            }
            Request::Convert { path, parsed, deps } => {
                let names = deps.iter().map(|(p, _)| p.to_string()).collect();
                self.converted.push((path.to_string(), names));
                Event::Converted(convert(&path, &parsed, &deps))
            }
        }
    }

    fn run(&mut self, includes: &[&str], inputs: &[&str]) -> Result<ParsedAndTypechecked, Error> {
        let (mut session, mut action) = parse_and_typecheck(&strings(includes), &strings(inputs));
        loop {
            match action {
                Action::Finish(result) => {
                    assert!(session.is_finished());
                    return result;
                }
                Action::Ask(request) => {
                    assert!(!session.is_finished());
                    let event = self.answer(request);
                    action = session.step(event);
                }
            }
        }
    }

    /// Answers `step` and what follows it until the resolver is done.
    fn finish(&mut self, run: &mut Run, mut step: Step) -> Result<(), Error> {
        loop {
            match step {
                Step::Done(result) => return result,
                Step::Ask(request) => {
                    let event = self.answer(request);
                    step = run.resume(event);
                }
            }
        }
    }

    fn deps_given_to(&self, file: &str) -> Vec<String> {
        let mut found = self.converted.iter().filter(|(name, _)| name == file);
        let deps = found.next().unwrap().1.clone();
        assert!(found.next().is_none());
        deps
    }
}

fn names(found: &ParsedAndTypechecked) -> Vec<String> {
    found.file_descriptors.iter().map(|d| d.name().to_string()).collect()
}

fn relative(found: &ParsedAndTypechecked) -> Vec<String> {
    found.relative_paths.iter().map(|p| p.to_string()).collect()
}

fn in_file(file: &str, error: Error) -> Error {
    Error::WithFile { file: file.to_string(), error: Box::new(error) }
}

#[test]
fn two_files_end_to_end() {
    let mut world = World::with(&[("a.proto", "import \"b.proto\";\nmessage A"), ("b.proto", "")]);
    let found = world.run(&["."], &["a.proto"]).unwrap();
    assert_eq!(relative(&found), vec!["a.proto"]);
    assert_eq!(found.file_descriptors.len(), 2);
    assert_eq!(names(&found), vec!["b.proto", "a.proto"]);
    assert_eq!(found.file_descriptors[1].dependency, vec!["b.proto"]);
    assert_eq!(world.probed, vec!["./b.proto"]);
    assert_eq!(world.read, vec!["a.proto", "./b.proto"]);
}

#[test]
fn input_order_is_kept_and_nothing_comes_twice() {
    let mut world = World::with(&[("x.proto", "import \"y.proto\";"), ("y.proto", "")]);
    let found = world.run(&["."], &["x.proto", "y.proto"]).unwrap();
    assert_eq!(relative(&found), vec!["x.proto", "y.proto"]);
    assert_eq!(names(&found), vec!["y.proto", "x.proto"]);
    assert_eq!(world.parsed.len(), 2);
}

#[test]
fn a_file_that_is_done_is_not_parsed_again() {
    let mut world = World::with(&[("a.proto", "package p;")]);
    let found = world.run(&["."], &["a.proto", "a.proto", "./a.proto"]).unwrap();
    assert_eq!(relative(&found), vec!["a.proto", "a.proto", "a.proto"]);
    assert_eq!(names(&found), vec!["a.proto"]);
    assert_eq!(world.read, vec!["a.proto"]);
    assert_eq!(world.parsed.len(), 1);
    assert_eq!(world.converted.len(), 1);
}

#[test]
fn adding_a_file_twice_changes_nothing_the_second_time() {
    let mut world = World::with(&[("a.proto", "package p;")]);
    let mut run = Run::new(strings(&["."]));
    let (first, step) = run.add_fs_file("a.proto").unwrap();
    world.finish(&mut run, step).unwrap();
    assert_eq!(run.parsed_files().len(), 1);
    let before = run.parsed_files().value_at(0).clone();
    let (second, step) = run.add_fs_file("a.proto").unwrap();
    assert_eq!(step, Step::Done(Ok(())));
    assert_eq!(first, second);
    assert_eq!(run.parsed_files().len(), 1);
    assert_eq!(*run.parsed_files().value_at(0), before);
    assert_eq!(world.parsed.len(), 1);
    assert_eq!(run.add_imported_file(&path("a.proto")), None);
    assert!(run.is_idle());
}

#[test]
fn a_file_imported_twice_is_resolved_once() {
    let files = [
        ("top.proto", "import \"a.proto\";\nimport \"b.proto\";"),
        ("pot.proto", "import \"b.proto\";\nimport \"a.proto\";"),
        ("a.proto", "import \"c.proto\";"),
        ("b.proto", "import \"c.proto\";"),
        ("c.proto", "package c;"),
    ];
    let mut world = World::with(&files);
    let found = world.run(&["."], &["top.proto"]).unwrap();
    assert_eq!(names(&found), vec!["c.proto", "a.proto", "b.proto", "top.proto"]);
    assert_eq!(world.read.iter().filter(|p| *p == "./c.proto").count(), 1);
    assert_eq!(world.converted.iter().filter(|(p, _)| p == "c.proto").count(), 1);
    assert_eq!(world.deps_given_to("top.proto"), vec!["a.proto", "c.proto", "b.proto"]);

    let mut other = World::with(&files);
    let found_other = other.run(&["."], &["pot.proto"]).unwrap();
    assert_eq!(names(&found_other), vec!["c.proto", "b.proto", "a.proto", "pot.proto"]);
    assert_eq!(found.file_descriptors[0], found_other.file_descriptors[0]);
    assert_eq!(other.deps_given_to("pot.proto"), vec!["b.proto", "c.proto", "a.proto"]);
}

#[test]
fn a_file_is_given_its_own_dependencies_only() {
    let mut world = World::with(&[
        ("a.proto", "import \"c.proto\";"),
        ("b.proto", "package b;"),
        ("c.proto", "package c;"),
        ("d.proto", "import \"b.proto\";"),
    ]);
    let found = world.run(&["."], &["b.proto", "a.proto", "d.proto"]).unwrap();
    assert_eq!(names(&found), vec!["b.proto", "c.proto", "a.proto", "d.proto"]);
    assert_eq!(world.deps_given_to("b.proto"), Vec::<String>::new());
    assert_eq!(world.deps_given_to("a.proto"), vec!["c.proto"]);
    assert_eq!(world.deps_given_to("d.proto"), vec!["b.proto"]);
}

#[test]
fn dependencies_come_in_the_order_of_first_discovery() {
    let mut world = World::with(&[
        ("a.proto", "import \"b.proto\";\nimport \"c.proto\";\nimport \"e.proto\";"),
        ("b.proto", "import \"d.proto\";\nimport \"c.proto\";"),
        ("c.proto", "import \"e.proto\";"),
        ("d.proto", ""),
        ("e.proto", ""),
    ]);
    world.run(&["."], &["a.proto"]).unwrap();
    assert_eq!(
        world.deps_given_to("a.proto"),
        vec!["b.proto", "d.proto", "c.proto", "e.proto"]
    );
    assert_eq!(world.deps_given_to("b.proto"), vec!["d.proto", "c.proto", "e.proto"]);
    assert_eq!(world.deps_given_to("c.proto"), vec!["e.proto"]);
}

#[test]
fn closure_of_a_done_file_starts_with_the_file() {
    let mut world = World::with(&[
        ("a.proto", "import \"b.proto\";\nimport \"c.proto\";"),
        ("b.proto", "import \"c.proto\";"),
        ("c.proto", ""),
    ]);
    let mut run = Run::new(strings(&["."]));
    let (_, step) = run.add_fs_file("a.proto").unwrap();
    world.finish(&mut run, step).unwrap();

    let mut result = LinkedHashMap::new();
    run.get_file_and_all_deps_already_parsed(&path("a.proto"), &mut result);
    let keys: Vec<String> = (0..result.len()).map(|i| result.key_at(i).to_string()).collect();
    assert_eq!(keys, vec!["a.proto", "b.proto", "c.proto"]);
    run.get_file_and_all_deps_already_parsed(&path("b.proto"), &mut result);
    assert_eq!(result.len(), 3);

    let mut of_b = LinkedHashMap::new();
    let b = run.parsed_files().get(&path("b.proto")).unwrap().parsed.clone();
    run.get_all_deps_already_parsed(&b, &mut of_b);
    assert_eq!(of_b.len(), 1);
    assert_eq!(of_b.key_at(0).to_str(), "c.proto");
    assert_eq!(of_b.value_at(0), run.parsed_files().get(&path("c.proto")).unwrap());
}

#[test]
fn built_in_schema_is_found_with_no_directory() {
    let mut run = Run::new(Vec::new());
    let step = run.add_imported_file(&path("google/protobuf/timestamp.proto"));
    let built_in = embedded("google/protobuf/timestamp.proto").unwrap();
    assert!(built_in.contains("message Timestamp"));
    assert_eq!(
        step,
        Some(Step::Ask(Request::Parse {
            path: path("google/protobuf/timestamp.proto"),
            content: built_in
        }))
    );

    let mut world = World::default();
    let step = run.resume(world.answer(Request::Parse {
        path: path("google/protobuf/timestamp.proto"),
        content: "package p;".to_string(),
    }));
    let step = match step {
        Step::Ask(Request::Convert { path: p, parsed, deps }) => {
            assert_eq!(p.to_str(), "google/protobuf/timestamp.proto");
            assert!(deps.is_empty());
            run.resume(Event::Converted(convert(&p, &parsed, &deps)))
        }
        other => panic!("{:?}", other),
    };
    assert_eq!(step, Step::Done(Ok(())));
    assert_eq!(run.parsed_files().key_at(0).to_str(), "google/protobuf/timestamp.proto");
}

#[test]
fn unknown_schema_is_not_found_with_no_directory() {
    let mut run = Run::new(Vec::new());
    let step = run.add_imported_file(&path("not/a/real.proto"));
    assert_eq!(
        step,
        Some(Step::Done(Err(Error::FileNotFoundInImportPath(
            "not/a/real.proto".to_string(),
            Vec::new()
        ))))
    );
    assert!(run.is_idle());
}

#[test]
fn built_in_schema_is_the_last_resort() {
    let mut world = World::with(&[
        ("a.proto", "import \"google/protobuf/empty.proto\";"),
        ("b.proto", "import \"google/protobuf/any.proto\";"),
        ("inc/google/protobuf/any.proto", "package mine;"),
    ]);
    let found = world.run(&[".", "inc"], &["a.proto", "b.proto"]).unwrap();
    assert_eq!(
        names(&found),
        vec!["google/protobuf/empty.proto", "a.proto", "google/protobuf/any.proto", "b.proto"]
    );
    assert_eq!(
        world.probed,
        vec![
            "./google/protobuf/empty.proto",
            "inc/google/protobuf/empty.proto",
            "./google/protobuf/any.proto",
            "inc/google/protobuf/any.proto"
        ]
    );
    assert_eq!(world.parsed[1], embedded("google/protobuf/empty.proto").unwrap());
    assert_eq!(world.parsed[3], "package mine;");
    assert_eq!(found.file_descriptors[2].package(), "mine");
}

#[test]
fn missing_import_names_the_directories_and_the_importer() {
    let mut world = World::with(&[("protos/a.proto", "import \"not/a/real.proto\";")]);
    let error = world.run(&["protos", "more"], &["protos/a.proto"]).unwrap_err();
    assert_eq!(
        error,
        in_file(
            "protos/a.proto",
            Error::FileNotFoundInImportPath(
                "not/a/real.proto".to_string(),
                strings(&["protos", "more"])
            )
        )
    );
    assert_eq!(world.probed, vec!["protos/not/a/real.proto", "more/not/a/real.proto"]);
}

#[test]
fn the_first_directory_that_has_the_file_wins() {
    let files = [
        ("one/main.proto", "import \"x.proto\";"),
        ("one/x.proto", "package first;"),
        ("two/x.proto", "package second;"),
    ];
    let mut world = World::with(&files);
    let found = world.run(&["one", "two"], &["one/main.proto"]).unwrap();
    assert_eq!(found.file_descriptors[0].package(), "first");
    assert_eq!(world.read, vec!["one/main.proto", "one/x.proto"]);
    assert_eq!(world.probed, vec!["one/x.proto"]);

    let mut world = World::with(&files);
    let found = world.run(&["two", "one"], &["one/main.proto"]).unwrap();
    assert_eq!(found.file_descriptors[0].package(), "second");
    assert_eq!(world.read, vec!["one/main.proto", "two/x.proto"]);
}

#[test]
fn the_first_directory_that_holds_an_input_names_it() {
    let mut world = World::with(&[("a/b/c.proto", "")]);
    let found = world.run(&["a/b", "a"], &["a/b/c.proto"]).unwrap();
    assert_eq!(relative(&found), vec!["c.proto"]);
    let mut world = World::with(&[("a/b/c.proto", "")]);
    let found = world.run(&["a", "a/b"], &["a/b/c.proto"]).unwrap();
    assert_eq!(relative(&found), vec!["b/c.proto"]);
}

#[test]
fn input_outside_every_directory_is_refused() {
    let mut world = World::with(&[("elsewhere/a.proto", "")]);
    let error = world.run(&["protos", "more"], &["elsewhere/a.proto"]).unwrap_err();
    assert_eq!(
        error,
        Error::FileMustResideInImportPath(
            "elsewhere/a.proto".to_string(),
            strings(&["protos", "more"])
        )
    );
    assert!(world.read.is_empty());

    let error = world.run(&[], &["elsewhere/a.proto"]).unwrap_err();
    assert_eq!(
        error,
        Error::FileMustResideInImportPath("elsewhere/a.proto".to_string(), Vec::new())
    );
    let error = world.run(&["."], &["/abs/a.proto"]).unwrap_err();
    assert_eq!(
        error,
        Error::FileMustResideInImportPath("/abs/a.proto".to_string(), strings(&["."]))
    );
}

#[test]
fn the_current_directory_takes_relative_paths_as_they_are() {
    let mut world = World::with(&[("a.proto", ""), ("sub/dir/b.proto", "")]);
    let found = world.run(&["."], &["a.proto", "sub/dir/b.proto"]).unwrap();
    assert_eq!(relative(&found), vec!["a.proto", "sub/dir/b.proto"]);
    assert_eq!(world.read, vec!["a.proto", "sub/dir/b.proto"]);
}

#[test]
fn no_input_is_no_work() {
    let mut world = World::default();
    let found = world.run(&["."], &[]).unwrap();
    assert!(found.relative_paths.is_empty());
    assert!(found.file_descriptors.is_empty());
}

#[test]
fn a_fault_is_wrapped_by_every_file_on_the_way() {
    let mut world = World::with(&[
        ("a.proto", "import \"b.proto\";"),
        ("b.proto", "import \"c.proto\";"),
        ("c.proto", "package c;\n!"),
    ]);
    let error = world.run(&["."], &["a.proto"]).unwrap_err();
    let fault = Error::Syntax(ParserErrorWithLocation {
        message: "unexpected `!`".to_string(),
        line: 2,
        col: 1,
    });
    assert_eq!(error.root_cause(), &fault);
    assert_eq!(
        error,
        in_file("a.proto", in_file("./b.proto", in_file("./c.proto", fault)))
    );
}

#[test]
fn a_file_that_cannot_be_converted_names_itself() {
    let mut world = World::with(&[
        ("a.proto", "import \"b.proto\";"),
        ("b.proto", "package broken;"),
    ]);
    let error = world.run(&["."], &["a.proto"]).unwrap_err();
    assert_eq!(
        error,
        in_file(
            "a.proto",
            in_file(
                "./b.proto",
                Error::Semantic(ConvertError { message: "unresolved type".to_string() })
            )
        )
    );
}

#[test]
fn a_built_in_schema_is_named_by_its_canonical_path() {
    let mut world = World::with(&[("a.proto", "import \"google/protobuf/any.proto\";")]);
    let (mut session, action) = parse_and_typecheck(&strings(&["."]), &strings(&["a.proto"]));
    let mut action = action;
    let content = loop {
        match action {
            Action::Ask(Request::Parse { path: p, content }) if content.contains("message Any") => {
                assert_eq!(p.to_str(), "google/protobuf/any.proto");
                break content;
            }
            Action::Ask(request) => action = session.step(world.answer(request)),
            Action::Finish(result) => panic!("{:?}", result),
        }
    };
    assert_eq!(content, embedded("google/protobuf/any.proto").unwrap());
    let fault = ParserErrorWithLocation { message: "no".to_string(), line: 7, col: 3 };
    let action = session.step(Event::Parsed(Err(ParserErrorWithLocation {
        message: "no".to_string(),
        line: 7,
        col: 3,
    })));
    assert_eq!(
        action,
        Action::Finish(Err(in_file(
            "a.proto",
            in_file("google/protobuf/any.proto", Error::Syntax(fault))
        )))
    );
}

#[test]
fn a_file_that_cannot_be_read_is_named_with_the_reason() {
    let mut world = World::with(&[("a.proto", "import \"b.proto\";"), ("b.proto", "")]);
    world.unreadable.push("./b.proto".to_string());
    let error = world.run(&["."], &["a.proto"]).unwrap_err();
    assert_eq!(
        error,
        in_file(
            "a.proto",
            Error::CouldNotReadFile("./b.proto".to_string(), "permission denied".to_string())
        )
    );

    let mut world = World::default();
    let error = world.run(&["."], &["a.proto"]).unwrap_err();
    assert_eq!(
        error,
        Error::CouldNotReadFile("a.proto".to_string(), "no such file".to_string())
    );
}

#[test]
fn an_import_cycle_is_an_error() {
    let mut world = World::with(&[
        ("a.proto", "import \"b.proto\";"),
        ("b.proto", "import \"a.proto\";"),
    ]);
    let error = world.run(&["."], &["a.proto"]).unwrap_err();
    assert_eq!(
        error,
        in_file("a.proto", in_file("./b.proto", Error::CyclicImport("a.proto".to_string())))
    );
    assert_eq!(world.parsed.len(), 2);

    let mut world = World::with(&[("self.proto", "import \"self.proto\";")]);
    let error = world.run(&["."], &["self.proto"]).unwrap_err();
    assert_eq!(error, in_file("self.proto", Error::CyclicImport("self.proto".to_string())));
}

#[test]
fn an_answer_out_of_turn_ends_the_session() {
    let (mut session, action) = parse_and_typecheck(&strings(&["."]), &strings(&["a.proto"]));
    assert_eq!(action, Action::Ask(Request::Read { fs_path: "a.proto".to_string() }));
    let action = session.step(Event::Probed(true));
    assert_eq!(action, Action::Finish(Err(Error::OutOfTurn)));
    assert!(session.is_finished());
    let action = session.step(Event::Read(Ok(String::new())));
    assert_eq!(action, Action::Finish(Err(Error::OutOfTurn)));
}

#[test]
fn a_resolver_takes_no_file_while_an_answer_is_due() {
    let mut run = Run::new(strings(&["."]));
    let (p, step) = run.add_fs_file("a.proto").unwrap();
    assert_eq!(p.to_str(), "a.proto");
    assert_eq!(step, Step::Ask(Request::Read { fs_path: "a.proto".to_string() }));
    assert!(!run.is_idle());
    assert_eq!(run.add_fs_file("b.proto"), Err(Error::OutOfTurn));
    assert!(run.is_idle());
    assert_eq!(run.resume(Event::Read(Ok(String::new()))), Step::Done(Err(Error::OutOfTurn)));

    let (_, step) = run.add_fs_file("a.proto").unwrap();
    assert_eq!(step, Step::Ask(Request::Read { fs_path: "a.proto".to_string() }));
    assert_eq!(
        run.add_imported_file(&path("b.proto")),
        Some(Step::Done(Err(Error::OutOfTurn)))
    );
    assert_eq!(run.includes(), &strings(&["."]));
}

#[test]
fn a_session_that_failed_keeps_what_was_done() {
    let mut world = World::with(&[("a.proto", ""), ("b.proto", "!")]);
    let mut run = Run::new(strings(&["."]));
    let (_, step) = run.add_fs_file("a.proto").unwrap();
    world.finish(&mut run, step).unwrap();
    let (_, step) = run.add_fs_file("b.proto").unwrap();
    assert!(world.finish(&mut run, step).is_err());
    assert!(run.is_idle());
    assert_eq!(run.parsed_files().len(), 1);
    let files = run.take_parsed_files();
    assert_eq!(run.parsed_files().len(), 0);
    let descriptors = files.into_descriptors();
    assert_eq!(descriptors[0].name(), "a.proto");
}
