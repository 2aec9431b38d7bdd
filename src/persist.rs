use crate::error::PersistError;
use crate::LoadState;
use vstd::prelude::*;

verus! {

/// The directory after the attempt to create it: `dir` when creation succeeded,
/// a write failure otherwise.
pub fn directory_created(created: Result<(), std::io::Error>, dir: std::path::PathBuf) -> (r: Result<std::path::PathBuf, PersistError>)
    ensures
        match created {
            Ok(_) => r == Ok::<std::path::PathBuf, PersistError>(dir),
            Err(e) => r == Err::<std::path::PathBuf, PersistError>(PersistError::Write(e)),
        },
{
    match created {
        Ok(_) => Ok(dir),
        Err(e) => Err(PersistError::Write(e)),
    }
}

/// The text of the file, or a read failure when it is absent or unreadable.
pub fn text_read(read: Result<String, std::io::Error>) -> (r: Result<String, PersistError>)
    ensures
        match read {
            Ok(text) => r == Ok::<String, PersistError>(text),
            Err(e) => r == Err::<String, PersistError>(PersistError::Read(e)),
        },
{
    match read {
        Ok(text) => Ok(text),
        Err(e) => Err(PersistError::Read(e)),
    }
}

/// The value that a parse of the file's text settles on: the parsed value, or
/// `default` when the text was not valid. A malformed file is not reported.
pub fn parsed_or_default<T>(parsed: Result<T, toml::de::Error>, default: T) -> (r: T)
    ensures
        match parsed {
            Ok(v) => r == v,
            Err(_) => r == default,
        },
{
    match parsed {
        Ok(v) => v,
        Err(_) => default,
    }
}

/// The outcome of `load`, from the attempt to read the file: a read failure when
/// the file was absent or unreadable; otherwise the text parsed as TOML, or
/// `default` when it does not parse.
pub fn load<T: serde::de::DeserializeOwned>(read: Result<String, std::io::Error>, default: T) -> (r: Result<T, PersistError>)
    ensures
        read matches Err(e) ==> r == Err::<T, PersistError>(PersistError::Read(e)),
        read is Ok ==> r is Ok,
{
    match text_read(read) {
        Err(e) => Err(e),
        Ok(text) => Ok(parsed_or_default(decode::<T>(text.as_str()), default)),
    }
}

/// The outcome of `load_or_default`, from the outcome of `load`: a loaded value is
/// `Loaded`, a read failure becomes `Default(default)`, any other failure passes through.
pub fn load_or_default<T>(loaded: Result<T, PersistError>, default: T) -> (r: Result<LoadState<T>, PersistError>)
    ensures
        match loaded {
            Ok(v) => r == Ok::<LoadState<T>, PersistError>(LoadState::Loaded(v)),
            Err(PersistError::Read(_)) => r == Ok::<LoadState<T>, PersistError>(LoadState::Default(default)),
            Err(e) => r == Err::<LoadState<T>, PersistError>(e),
        },
{
    match loaded {
        Ok(v) => Ok(LoadState::Loaded(v)),
        Err(e) => {
            if e.is_read() {
                Ok(LoadState::Default(default))
            } else {
                Err(e)
            }
        },
    }
}

/// The text to write for `value`: its TOML encoding in the human-readable
/// style, or an encoding failure.
pub fn save_text<T: serde::Serialize>(value: &T) -> (r: Result<String, PersistError>)
    ensures
        r matches Err(e) ==> e is TomlWrite,
{
    encoded(encode(value))
}

/// The outcome of encoding: the text when encoding succeeded, the encoder's
/// failure as `TomlWrite` otherwise.
pub fn encoded(encoding: Result<String, toml::ser::Error>) -> (r: Result<String, PersistError>)
    ensures
        match encoding {
            Ok(text) => r == Ok::<String, PersistError>(text),
            Err(e) => r == Err::<String, PersistError>(PersistError::TomlWrite(e)),
        },
{
    match encoding {
        Ok(text) => Ok(text),
        Err(e) => Err(PersistError::TomlWrite(e)),
    }
}

/// The outcome of writing the file: a write failure when it failed.
pub fn file_written(written: Result<(), std::io::Error>) -> (r: Result<(), PersistError>)
    ensures
        match written {
            Ok(_) => r is Ok,
            Err(e) => r == Err::<(), PersistError>(PersistError::Write(e)),
        },
{
    match written {
        Ok(_) => Ok(()),
        Err(e) => Err(PersistError::Write(e)),
    }
}

/// Relies on `toml::to_string_pretty`: encodes the value as TOML in the pretty style.
#[verifier::external_body]
fn encode<T: serde::Serialize>(value: &T) -> Result<String, toml::ser::Error> {
    toml::to_string_pretty(value)
}

/// Relies on `toml::from_str`: parses the text as TOML into a `T`.
#[verifier::external_body]
fn decode<T: serde::de::DeserializeOwned>(text: &str) -> Result<T, toml::de::Error> {
    toml::from_str(text)
}

} // verus!
