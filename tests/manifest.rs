use memora::{Artifact, ArtifactDecl, Error, ErrorKind, Manifest, ManifestDecl, ReadOutcome};

fn strings(items: &[&str]) -> Vec<String> {
    items.iter().map(|s| s.to_string()).collect()
}

fn decl(name: &str, inputs: &[&str], outputs: &[&str]) -> (String, ArtifactDecl) {
    (
        name.to_string(),
        ArtifactDecl { inputs: strings(inputs), outputs: strings(outputs) },
    )
}

fn manifest_decl(artifacts: Vec<(String, ArtifactDecl)>, disable: Option<&str>) -> ManifestDecl {
    ManifestDecl {
        cache_root_dir: ".cache".to_string(),
        artifacts,
        disable_env_var: disable.map(|s| s.to_string()),
    }
}

#[test]
fn concrete_scenario() {
    let d = manifest_decl(vec![decl("build", &["src/main.c"], &["out/bin"])], None);
    let m = Manifest::from_decl(d, "memora.yml").unwrap();
    assert_eq!(m.cache_root_dir, ".cache");
    assert_eq!(
        m.artifacts,
        vec![Artifact {
            name: "build".to_string(),
            inputs: strings(&["src/main.c", "memora.yml"]),
            outputs: strings(&["out/bin"]),
        }]
    );
    assert_eq!(m.disable_env_var, None);
}

#[test]
fn declaration_order_kept() {
    let d = manifest_decl(
        vec![decl("c", &[], &[]), decl("a", &["x"], &[]), decl("b", &[], &["y"])],
        None,
    );
    let m = Manifest::from_decl(d, "m.yml").unwrap();
    let names: Vec<&str> = m.artifacts.iter().map(|a| a.name.as_str()).collect();
    assert_eq!(names, vec!["c", "a", "b"]);
}

#[test]
fn manifest_path_is_last_input() {
    let d = manifest_decl(
        vec![
            decl("one", &["a.c", "b.c"], &["one.o"]),
            decl("two", &[], &["two.o"]),
            decl("three", &["dir/"], &[]),
        ],
        None,
    );
    let m = Manifest::from_decl(d, "conf/memora.yml").unwrap();
    assert_eq!(m.artifacts.len(), 3);
    for a in &m.artifacts {
        assert_eq!(a.inputs.last().map(|s| s.as_str()), Some("conf/memora.yml"));
    }
    assert_eq!(m.artifacts[0].inputs, strings(&["a.c", "b.c", "conf/memora.yml"]));
    assert_eq!(m.artifacts[1].inputs, strings(&["conf/memora.yml"]));
    assert_eq!(m.artifacts[2].outputs, Vec::<String>::new());
}

#[test]
fn duplicate_names_rejected() {
    let d = manifest_decl(
        vec![decl("a", &["x"], &[]), decl("b", &[], &[]), decl("a", &["y"], &[])],
        None,
    );
    let e = Manifest::from_decl(d, "m.yml").unwrap_err();
    assert_eq!(e.kind, ErrorKind::Schema);
    assert_eq!(e.message, "Duplicate artifact \"a\" in manifest \"m.yml\"!");
    assert!(e.message.contains("m.yml"));
    assert_eq!(e.cause, None);
}

#[test]
fn adjacent_duplicate_rejected() {
    let d = manifest_decl(vec![decl("x", &[], &[]), decl("x", &[], &[])], Some("NO_CACHE"));
    let r = Manifest::from_read("p.yml", ReadOutcome::Decoded(d));
    assert_eq!(r.unwrap_err().kind, ErrorKind::Schema);
}

#[test]
fn missing_file_is_io_error() {
    let r = Manifest::from_read(
        "does/not/exist.yml",
        ReadOutcome::OpenFailed("No such file or directory (os error 2)".to_string()),
    );
    let e = r.unwrap_err();
    assert_eq!(e.kind, ErrorKind::Io);
    assert!(e.message.contains("does/not/exist.yml"));
    assert_eq!(e.message, "Cannot open manifest \"does/not/exist.yml\"!");
    assert_eq!(e.cause, Some("No such file or directory (os error 2)".to_string()));
}

#[test]
fn malformed_content_is_schema_error() {
    let r = Manifest::from_read(
        "bad.yml",
        ReadOutcome::Malformed("missing field `cache_root_dir`".to_string()),
    );
    let e = r.unwrap_err();
    assert_eq!(e.kind, ErrorKind::Schema);
    assert!(e.message.contains("bad.yml"));
    assert_eq!(e.message, "Syntax error in manifest \"bad.yml\"!");
    assert_eq!(e.cause, Some("missing field `cache_root_dir`".to_string()));
}

#[test]
fn optional_variable_absent() {
    let d = manifest_decl(vec![decl("build", &[], &[])], None);
    let m = Manifest::from_read("m.yml", ReadOutcome::Decoded(d)).unwrap();
    assert_eq!(m.disable_env_var, None);
}

#[test]
fn optional_variable_present() {
    let d = manifest_decl(vec![decl("build", &[], &[])], Some("MEMORA_DISABLE"));
    let m = Manifest::from_decl(d, "m.yml").unwrap();
    assert_eq!(m.disable_env_var, Some("MEMORA_DISABLE".to_string()));
}

#[test]
fn no_artifacts_loads() {
    let d = manifest_decl(Vec::new(), None);
    let m = Manifest::from_decl(d, "m.yml").unwrap();
    assert!(m.artifacts.is_empty());
    assert_eq!(m.cache_root_dir, ".cache");
}

#[test]
fn error_constructors_name_path() {
    let e: Error = Error::open_failed("a b.yml", "denied".to_string());
    assert_eq!(e.message, "Cannot open manifest \"a b.yml\"!");
    let e = Error::syntax("", "eof".to_string());
    assert_eq!(e.message, "Syntax error in manifest \"\"!");
    assert_eq!(e.kind, ErrorKind::Schema);
    let e = Error::duplicate_artifact("m.yml", "build");
    assert_eq!(e.kind, ErrorKind::Schema);
    assert_eq!(e.message, "Duplicate artifact \"build\" in manifest \"m.yml\"!");
}
