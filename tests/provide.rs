use beavercds::artifacts::{
    copy_file_contents, plan_extract_asset, zip_files, ExtractError, ExtractStep,
};
use beavercds::challenge::{IncludeField, ProvideConfig, ProvideError, RawProvide};

/// Reads one written provide entry out of a YAML value.
fn raw_provide(v: &serde_yml::Value) -> RawProvide {
    if let Some(s) = v.as_str() {
        return RawProvide::Bare(s.to_string());
    }
    let m = v.as_mapping().expect("provide entry is a string or a mapping");
    let text = |key: &str| m.get(key).and_then(|x| x.as_str()).map(|s| s.to_string());
    let paths = m.get("include").map(|x| match x.as_str() {
        Some(s) => IncludeField::One(s.to_string()),
        None => IncludeField::Many(
            x.as_sequence()
                .expect("file list")
                .iter()
                .map(|p| p.as_str().expect("path").to_string())
                .collect(),
        ),
    });
    let unknown_key = m.keys().any(|k| k != "from" && k != "include" && k != "as");
    RawProvide::Fields { from: text("from"), paths, as_name: text("as"), unknown_key }
}

fn parse_provides(yaml: &str) -> Vec<Result<ProvideConfig, ProvideError>> {
    let v: serde_yml::Value = serde_yml::from_str(yaml).unwrap();
    v.as_sequence()
        .unwrap()
        .iter()
        .map(|e| ProvideConfig::from_raw(raw_provide(e)))
        .collect()
}

fn strings(v: &[&str]) -> Vec<String> {
    v.iter().map(|s| s.to_string()).collect()
}

#[test]
fn challenge_provide() {
    let parsed = parse_provides(
        r#"
- foo.txt

- include: foo2.txt

- include:
    - bar.txt
    - baz.txt

- as: oranges
  include: apples

- as: stuff.zip
  include:
    - ducks
    - beavers

- from: container
  include:
    - /foo/bar

- from: container
  as: pears
  include: /usr/lib/peaches

- from: container
  as: shells.zip
  include:
    - /usr/bin/bash
    - /usr/bin/zsh
"#,
    );
    let parsed: Vec<ProvideConfig> = parsed.into_iter().map(|r| r.unwrap()).collect();
    assert_eq!(
        parsed,
        vec![
            ProvideConfig::FromRepo { files: strings(&["foo.txt"]) },
            ProvideConfig::FromRepo { files: strings(&["foo2.txt"]) },
            ProvideConfig::FromRepo { files: strings(&["bar.txt", "baz.txt"]) },
            ProvideConfig::FromRepoRename { from: "apples".into(), to: "oranges".into() },
            ProvideConfig::FromRepoArchive {
                files: strings(&["ducks", "beavers"]),
                archive_name: "stuff.zip".into()
            },
            ProvideConfig::FromContainer {
                container: "container".to_string(),
                files: strings(&["/foo/bar"])
            },
            ProvideConfig::FromContainerRename {
                container: "container".to_string(),
                from: "/usr/lib/peaches".into(),
                to: "pears".into(),
            },
            ProvideConfig::FromContainerArchive {
                container: "container".to_string(),
                files: strings(&["/usr/bin/bash", "/usr/bin/zsh"]),
                archive_name: "shells.zip".into(),
            }
        ],
    );
}

#[test]
fn challenge_provide_no_include() {
    let parsed = parse_provides("- as: bad.zip\n");
    assert_eq!(parsed.len(), 1);
    assert_eq!(parsed[0], Err(ProvideError::MissingInclude));
}

#[test]
fn provide_round_trip_each_shape() {
    let cases: Vec<(&str, ProvideConfig)> = vec![
        ("- foo.txt\n", ProvideConfig::FromRepo { files: strings(&["foo.txt"]) }),
        (
            "- {as: y, include: x}\n",
            ProvideConfig::FromRepoRename { from: "x".into(), to: "y".into() },
        ),
        (
            "- {as: x.zip, include: [a, b]}\n",
            ProvideConfig::FromRepoArchive { files: strings(&["a", "b"]), archive_name: "x.zip".into() },
        ),
        (
            "- {from: c, include: [/a]}\n",
            ProvideConfig::FromContainer { container: "c".into(), files: strings(&["/a"]) },
        ),
        (
            "- {from: c, as: y, include: /x}\n",
            ProvideConfig::FromContainerRename { container: "c".into(), from: "/x".into(), to: "y".into() },
        ),
        (
            "- {from: c, as: x.zip, include: [/a, /b]}\n",
            ProvideConfig::FromContainerArchive {
                container: "c".into(),
                files: strings(&["/a", "/b"]),
                archive_name: "x.zip".into(),
            },
        ),
    ];
    for (yaml, expected) in cases {
        assert_eq!(parse_provides(yaml), vec![Ok(expected)], "{yaml}");
    }
}

#[test]
fn provide_errors() {
    assert_eq!(parse_provides("- {as: x.zip, include: []}\n"), vec![Err(ProvideError::EmptyArchive)]);
    assert_eq!(parse_provides("- {include: [a], extra: 1}\n"), vec![Err(ProvideError::UnknownKey)]);
    assert_eq!(parse_provides("- {from: c}\n"), vec![Err(ProvideError::MissingInclude)]);
}

#[test]
fn repo_plans() {
    let as_is = plan_extract_asset("pwn/notsh", &ProvideConfig::FromRepo { files: strings(&["a.txt", "/abs"]) })
        .unwrap();
    assert_eq!(as_is.container, None);
    assert!(as_is.steps.is_empty());
    assert_eq!(as_is.produced, strings(&["pwn/notsh/a.txt", "/abs"]));

    let rename = plan_extract_asset(
        "pwn/notsh/",
        &ProvideConfig::FromRepoRename { from: "a".into(), to: "b".into() },
    )
    .unwrap();
    assert_eq!(
        rename.steps,
        vec![ExtractStep::CopyRepo { from: "pwn/notsh/a".into(), to: "pwn/notsh/b".into() }]
    );
    assert_eq!(rename.produced, strings(&["pwn/notsh/b"]));

    let archive = plan_extract_asset(
        "web/x",
        &ProvideConfig::FromRepoArchive { files: strings(&["src/a.py", "b"]), archive_name: "x.zip".into() },
    )
    .unwrap();
    assert_eq!(
        archive.steps,
        vec![ExtractStep::ZipRepo {
            archive: "web/x/x.zip".into(),
            members: vec![
                ("a.py".to_string(), "web/x/src/a.py".to_string()),
                ("b".to_string(), "web/x/b".to_string())
            ],
        }]
    );
    assert_eq!(archive.produced, strings(&["web/x/x.zip"]));
}

#[test]
fn container_extraction_completeness() {
    let plan = plan_extract_asset(
        "misc/chal",
        &ProvideConfig::FromContainer { container: "main".into(), files: strings(&["/a", "/b", "/c"]) },
    )
    .unwrap();
    assert_eq!(plan.container, Some("main".to_string()));
    assert_eq!(plan.produced, strings(&["misc/chal/a", "misc/chal/b", "misc/chal/c"]));
    assert_eq!(plan.steps.len(), 3);
    for (name, contents) in [("a", b"alpha".to_vec()), ("b", b"".to_vec()), ("c", vec![0u8, 1, 2, 255])] {
        let download = tar_of(name, &contents);
        let got = copy_file_contents("asset-container", &format!("/{name}"), &download).unwrap();
        assert_eq!(got, contents);
    }
}

#[test]
fn container_rename_plan() {
    let plan = plan_extract_asset(
        "pwn/notsh",
        &ProvideConfig::FromContainerRename { container: "c".into(), from: "/usr/lib/x".into(), to: "y".into() },
    )
    .unwrap();
    assert_eq!(
        plan.steps,
        vec![ExtractStep::CopyContainer { from: "/usr/lib/x".into(), to: "pwn/notsh/y".into() }]
    );
}

#[test]
fn nameless_path_is_refused() {
    let r = plan_extract_asset(
        "d",
        &ProvideConfig::FromContainer { container: "c".into(), files: strings(&["/etc/"]) },
    );
    assert_eq!(r, Err(ExtractError::NoFileName { path: "/etc/".into() }));
}

fn tar_of(name: &str, contents: &[u8]) -> Vec<u8> {
    let mut b = tar::Builder::new(Vec::new());
    let mut header = tar::Header::new_gnu();
    header.set_size(contents.len() as u64);
    header.set_mode(0o644);
    header.set_cksum();
    b.append_data(&mut header, name, contents).unwrap();
    b.into_inner().unwrap()
}

#[test]
fn zero_entry_download_is_an_error() {
    let empty = tar::Builder::new(Vec::new()).into_inner().unwrap();
    let r = copy_file_contents("asset-container-x", "/flag", &empty);
    assert_eq!(
        r,
        Err(ExtractError::NoFiles { container: "asset-container-x".into(), path: "/flag".into() })
    );
}

fn zip_entries(bytes: &[u8]) -> Vec<(String, Vec<u8>)> {
    let mut z = zip::ZipArchive::new(std::io::Cursor::new(bytes.to_vec())).unwrap();
    let mut out = vec![];
    for i in 0..z.len() {
        let mut f = z.by_index(i).unwrap();
        let mut buf = vec![];
        std::io::Read::read_to_end(&mut f, &mut buf).unwrap();
        out.push((f.name().to_string(), buf));
    }
    out
}

#[test]
fn archive_idempotence() {
    let files = strings(&["dir/one.txt", "other/two.bin"]);
    let contents = vec![b"first".to_vec(), vec![7u8; 1000]];
    let a = zip_files(&files, &contents).unwrap();
    let b = zip_files(&files, &contents).unwrap();
    assert_eq!(a, b);
    assert_eq!(zip_entries(&a), zip_entries(&b));
    assert_eq!(
        zip_entries(&a),
        vec![("one.txt".to_string(), b"first".to_vec()), ("two.bin".to_string(), vec![7u8; 1000])]
    );
}

#[test]
fn container_archive_scenario() {
    let parsed = parse_provides("- {from: main, include: [libc.so.6, notsh], as: notsh.zip}\n");
    let provide = parsed.into_iter().next().unwrap().unwrap();
    let plan = plan_extract_asset("pwn/notsh", &provide).unwrap();
    assert_eq!(plan.produced, strings(&["pwn/notsh/notsh.zip"]));
    let members = match &plan.steps[..] {
        [ExtractStep::ZipContainer { archive, members }] => {
            assert_eq!(archive, "pwn/notsh/notsh.zip");
            members.clone()
        }
        other => panic!("unexpected steps {other:?}"),
    };
    let paths: Vec<String> = members.iter().map(|m| m.1.clone()).collect();
    let contents = vec![b"libc bytes".to_vec(), b"notsh bytes".to_vec()];
    let archive = zip_files(&paths, &contents).unwrap();
    let names: Vec<String> = zip_entries(&archive).into_iter().map(|e| e.0).collect();
    assert_eq!(names, strings(&["libc.so.6", "notsh"]));
}

#[test]
fn duplicate_member_names_fail() {
    let r = zip_files(&strings(&["a/x", "b/x"]), &vec![vec![1], vec![2]]);
    assert_eq!(r, Err(ExtractError::Archive));
}
