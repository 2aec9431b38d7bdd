use configurable::location::{file_path, resolved_dir};
use configurable::persist::{directory_created, encoded, file_written, load, load_or_default, parsed_or_default, save_text, text_read};
use configurable::{DirectoryKind, Identity, LoadState, PersistError};
use std::collections::BTreeMap;
use std::io::{Error as IoError, ErrorKind};
use std::path::PathBuf;

fn sample() -> BTreeMap<String, i64> {
    let mut m = BTreeMap::new();
    m.insert("attempts".to_string(), 3);
    m.insert("retries".to_string(), 7);
    m
}

fn fallback() -> BTreeMap<String, i64> {
    let mut m = BTreeMap::new();
    m.insert("fallback".to_string(), 1);
    m
}

fn missing() -> IoError {
    IoError::new(ErrorKind::NotFound, "no such file")
}

#[test]
fn saved_text_loads_back() {
    let text = save_text(&sample()).unwrap();
    let back: BTreeMap<String, i64> = load(Ok(text), fallback()).unwrap();
    assert_eq!(back, sample());
}

#[test]
fn saved_text_is_toml() {
    let text = save_text(&sample()).unwrap();
    assert!(text.contains("attempts = 3"));
    assert!(text.contains("retries = 7"));
}

#[test]
fn missing_file_gives_default_state() {
    let loaded = load::<BTreeMap<String, i64>>(Err(missing()), BTreeMap::new());
    assert!(matches!(loaded, Err(PersistError::Read(_))));
    match load_or_default(loaded, fallback()).unwrap() {
        LoadState::Default(v) => assert_eq!(v, fallback()),
        LoadState::Loaded(_) => panic!("expected a default state"),
    }
}

#[test]
fn saved_file_gives_loaded_state() {
    let text = save_text(&sample()).unwrap();
    let state = load_or_default(load(Ok(text), fallback()), BTreeMap::new()).unwrap();
    assert!(state.is_loaded());
    assert_eq!(state.into_inner(), sample());
}

#[test]
fn invalid_text_loads_as_default() {
    let v: BTreeMap<String, i64> = load(Ok("this is [not = valid toml".to_string()), fallback()).unwrap();
    assert_eq!(v, fallback());
}

#[test]
fn parse_failure_falls_back() {
    let bad = toml::from_str::<BTreeMap<String, i64>>("x = ").unwrap_err();
    assert_eq!(parsed_or_default(Err(bad), fallback()), fallback());
    assert_eq!(parsed_or_default(Ok(sample()), fallback()), sample());
}

#[test]
fn other_failures_pass_through_load_or_default() {
    let failed: Result<BTreeMap<String, i64>, PersistError> = Err(PersistError::Write(missing()));
    assert!(matches!(load_or_default(failed, fallback()), Err(PersistError::Write(_))));
}

#[test]
fn unencodable_value_is_a_write_error() {
    let err = save_text(&5i64).unwrap_err();
    assert!(matches!(err, PersistError::TomlWrite(_)));
    assert!(err.message().starts_with("toml write error: "));
}

#[test]
fn read_and_write_failures_are_classified() {
    assert!(matches!(text_read(Err(missing())), Err(PersistError::Read(_))));
    assert_eq!(text_read(Ok("a = 1".to_string())).unwrap(), "a = 1");
    assert!(matches!(file_written(Err(missing())), Err(PersistError::Write(_))));
    assert!(file_written(Ok(())).is_ok());
    let dir = PathBuf::from("/tmp/somewhere");
    assert!(matches!(directory_created(Err(missing()), dir.clone()), Err(PersistError::Write(_))));
    assert_eq!(directory_created(Ok(()), dir.clone()).unwrap(), dir);
}

#[test]
fn messages_name_the_failure() {
    let m = PersistError::Read(missing()).message();
    assert!(m.starts_with("cannot read: "));
    assert!(m.ends_with("no such file"));
    assert!(PersistError::Write(missing()).message().starts_with("cannot write: "));
    assert!(PersistError::Read(missing()).is_read());
    assert!(!PersistError::Write(missing()).is_read());
}

#[test]
fn identity_needs_organization_and_application() {
    assert!(Identity::new("com.github", "", "foobar", "config.toml", DirectoryKind::Config).is_none());
    assert!(Identity::new("com.github", "museun", "", "config.toml", DirectoryKind::Config).is_none());
    let id = Identity::with_default_qualifier("museun", "foobar", "config.toml", DirectoryKind::Data).unwrap();
    assert_eq!(id.qualifier, "com.github");
    assert_eq!(id.organization, "museun");
    assert_eq!(id.application, "foobar");
    assert_eq!(id.name, "config.toml");
    assert_eq!(id.kind, DirectoryKind::Data);
}

#[test]
fn file_lies_inside_the_directory() {
    let id = Identity::with_default_qualifier("museun", "foobar", "config.toml", DirectoryKind::Config).unwrap();
    let path = id.file_in(&PathBuf::from("/base/foobar"));
    assert_eq!(path, PathBuf::from("/base/foobar/config.toml"));
}

#[test]
fn base_dirs_differ_by_kind() {
    let config = Identity::with_default_qualifier("museun", "foobar", "config.toml", DirectoryKind::Config).unwrap();
    let data = Identity::with_default_qualifier("museun", "foobar", "data.json", DirectoryKind::Data).unwrap();
    let (c, d) = (config.base_dir(), data.base_dir());
    assert_eq!(c.is_some(), d.is_some());
    if let (Some(c), Some(d)) = (c, d) {
        assert_ne!(c, d);
        assert!(c.ends_with("foobar"));
        assert!(d.ends_with("foobar"));
    }
}

#[test]
fn resolved_dir_picks_root_by_kind() {
    let dirs = Some((PathBuf::from("/home/a/.config/foobar"), PathBuf::from("/home/a/.local/share/foobar")));
    assert_eq!(resolved_dir(DirectoryKind::Config, dirs.clone()), Some(PathBuf::from("/home/a/.config/foobar")));
    assert_eq!(resolved_dir(DirectoryKind::Data, dirs), Some(PathBuf::from("/home/a/.local/share/foobar")));
    assert_eq!(resolved_dir(DirectoryKind::Config, None), None);
    assert_eq!(resolved_dir(DirectoryKind::Data, None), None);
}

#[test]
fn file_path_appends_name() {
    assert_eq!(file_path(&PathBuf::from("/base"), "data.json"), PathBuf::from("/base/data.json"));
}

#[test]
fn encoding_outcome_is_kept() {
    assert_eq!(encoded(Ok("a = 1\n".to_string())).unwrap(), "a = 1\n");
    let err = toml::to_string_pretty(&5i64).unwrap_err();
    let text = err.to_string();
    match encoded(Err(err)) {
        Err(PersistError::TomlWrite(e)) => assert_eq!(e.to_string(), text),
        other => panic!("expected an encoding failure, got {:?}", other),
    }
}

#[test]
fn message_is_prefix_then_detail() {
    let e = PersistError::Read(IoError::new(ErrorKind::NotFound, "x"));
    assert_eq!(e.message(), "cannot read: x");
    assert_eq!(PersistError::Write(IoError::new(ErrorKind::Other, "full")).message(), "cannot write: full");
    assert_eq!(e.message_with(&"detail".to_string()), "cannot read: detail");
    let err = toml::to_string_pretty(&5i64).unwrap_err();
    let text = err.to_string();
    assert_eq!(PersistError::TomlWrite(err).message(), format!("toml write error: {}", text));
}

#[test]
fn load_state_accessors() {
    assert!(!LoadState::Default(1u8).is_loaded());
    assert_eq!(LoadState::Default(4u8).into_inner(), 4);
    assert_eq!(LoadState::Loaded(5u8).into_inner(), 5);
}
