use cargo_version::{
    bump_manifest, can_bump, BumpLevel, CargoVersionError, TomlError, TomlSemverExtensions,
    Version,
};

fn manifest(version_line: &str) -> Vec<String> {
    vec![
        String::from("[package]"),
        String::from("name = \"demo\""),
        String::from(version_line),
        String::from("authors = [\"someone\"]"),
        String::from(""),
        String::from("[dependencies]"),
        String::from("semver = \"0.9\""),
    ]
}

fn v(text: &str) -> Version {
    Version::parse(text).unwrap()
}

#[test]
fn it_reads_version() {
    assert_eq!(Version::read_from_toml(&manifest("version = \"0.0.0\"")).unwrap(), v("0.0.0"));
    assert_eq!(Version::read_from_toml(&manifest("version = \"0.54.182\"")).unwrap(), v("0.54.182"));
    assert_eq!(Version::read_from_toml(&manifest("version = \"1.0.0-alpha.2\"")).unwrap(), v("1.0.0-alpha.2"));
}

#[test]
fn it_writes_version() {
    let lines = manifest("version = \"0.0.0\"");
    assert_eq!(Version::read_from_toml(&lines).unwrap(), v("0.0.0"));

    let lines = v("1.2.3").write_to_toml(&lines).unwrap();
    assert_eq!(Version::read_from_toml(&lines).unwrap(), v("1.2.3"));

    let lines = v("0.0.0").write_to_toml(&lines).unwrap();
    assert_eq!(Version::read_from_toml(&lines).unwrap(), v("0.0.0"));
}

#[test]
fn written_versions_read_back() {
    let start = manifest("version = \"9.9.9\"");
    for text in ["0.0.0", "0.54.182", "1.0.0-alpha.2", "1.2.3"] {
        let written = v(text).write_to_toml(&start).unwrap();
        assert_eq!(Version::read_from_toml(&written).unwrap(), v(text));
    }
}

#[test]
fn writing_keeps_every_other_line() {
    let start = manifest("version = \"0.1.0\"");
    let out = v("2.3.4").write_to_toml(&start).unwrap();
    assert_eq!(out.len(), start.len());
    for (i, line) in out.iter().enumerate() {
        if i == 2 {
            assert_eq!(line, "version = \"2.3.4\"");
        } else {
            assert_eq!(line, &start[i]);
        }
    }
}

#[test]
fn only_the_first_declaration_is_replaced() {
    let start = vec![
        String::from("version = \"1.0.0\""),
        String::from("version = \"1.0.0\""),
    ];
    let out = v("1.1.0").write_to_toml(&start).unwrap();
    assert_eq!(out, vec![String::from("version = \"1.1.0\""), String::from("version = \"1.0.0\"")]);
}

#[test]
fn missing_version_line_fails_both_ways() {
    let lines = vec![String::from("[package]"), String::from("name = \"demo\"")];
    assert!(matches!(Version::read_from_toml(&lines), Err(TomlError::NoVersionFound)));
    assert!(matches!(v("1.0.0").write_to_toml(&lines), Err(TomlError::NoVersionFound)));
    assert!(matches!(Version::read_from_toml(&Vec::new()), Err(TomlError::NoVersionFound)));
}

#[test]
fn malformed_or_invalid_declarations_are_rejected() {
    assert!(matches!(Version::read_from_toml(&manifest("version")), Err(TomlError::MalformedVersionLine)));
    assert!(matches!(
        Version::read_from_toml(&manifest("version = \"1.0.a\"")),
        Err(TomlError::SemVerError(_))
    ));
    // A line that only starts with `version` is still taken as the declaration.
    assert!(matches!(
        Version::read_from_toml(&manifest("versions = [\"1.0.0\"]")),
        Err(TomlError::SemVerError(_))
    ));
}

#[test]
fn bumping_a_bare_manifest_before_one_point_oh() {
    let lines = vec![String::from("version = \"0.0.0\"")];
    let (next, out) = bump_manifest(&lines, BumpLevel::Major).unwrap();
    assert_eq!(next, v("0.1.0"));
    let mut content = String::new();
    for line in &out {
        content.push_str(line);
        content.push('\n');
    }
    assert_eq!(content, "version = \"0.1.0\"\n");
}

#[test]
fn bumping_reports_each_failure() {
    let none = vec![String::from("name = \"demo\"")];
    assert!(matches!(bump_manifest(&none, BumpLevel::Patch), Err(CargoVersionError::NoVersionFound)));
    let bad = vec![String::from("version = \"x.y.z\"")];
    assert!(matches!(bump_manifest(&bad, BumpLevel::Patch), Err(CargoVersionError::SemVerError(_))));
    let short = vec![String::from("version")];
    assert!(matches!(bump_manifest(&short, BumpLevel::Patch), Err(CargoVersionError::MalformedVersionLine)));
    let top = vec![String::from("version = \"1.0.18446744073709551615\"")];
    assert!(matches!(bump_manifest(&top, BumpLevel::Patch), Err(CargoVersionError::VersionOverflow)));
    // Without the exact spacing the value is cut at fixed columns.
    let spaced = vec![String::from("version=\"1.0.0\" # x")];
    assert!(matches!(bump_manifest(&spaced, BumpLevel::Patch), Err(CargoVersionError::SemVerError(_))));
}

#[test]
fn overflow_is_detected_per_level() {
    let top_patch = Version::new(0, 1, u64::MAX);
    assert!(!can_bump(&top_patch, &BumpLevel::Minor));
    assert!(can_bump(&top_patch, &BumpLevel::Major));
    assert!(can_bump(&top_patch, &BumpLevel::Specific(Version::new(1, 0, 0))));
}

#[test]
fn toml_errors_convert() {
    assert!(matches!(CargoVersionError::from(TomlError::NoVersionFound), CargoVersionError::NoVersionFound));
    assert!(matches!(
        CargoVersionError::from(TomlError::MalformedVersionLine),
        CargoVersionError::MalformedVersionLine
    ));
}
