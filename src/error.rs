use vstd::prelude::*;
use vstd::string::to_string_from_display_ensures;

verus! {

/// `std::io::Error`, carried through opaquely.
#[verifier::external_type_specification]
#[verifier::external_body]
pub struct ExIoError(std::io::Error);

/// `toml::de::Error`, carried through opaquely.
#[verifier::external_type_specification]
#[verifier::external_body]
pub struct ExTomlDeError(toml::de::Error);

/// `toml::ser::Error`, carried through opaquely.
#[verifier::external_type_specification]
#[verifier::external_body]
pub struct ExTomlSerError(toml::ser::Error);

/// The ways loading or saving a value can fail.
#[derive(Debug)]
pub enum PersistError {
    /// A directory or the file could not be written.
    Write(std::io::Error),
    /// The file could not be read.
    Read(std::io::Error),
    /// The file's text is not valid for the value's type.
    TomlRead(toml::de::Error),
    /// The value could not be encoded.
    TomlWrite(toml::ser::Error),
}

/// The text that introduces the message of each kind of failure.
pub open spec fn prefix_of(e: PersistError) -> Seq<char> {
    match e {
        PersistError::Write(_) => "cannot write: "@,
        PersistError::Read(_) => "cannot read: "@,
        PersistError::TomlRead(_) => "toml read error: "@,
        PersistError::TomlWrite(_) => "toml write error: "@,
    }
}

/// `detail` is what the `Display` of the error that `e` wraps renders.
pub open spec fn describes(e: PersistError, detail: String) -> bool {
    match e {
        PersistError::Write(x) => to_string_from_display_ensures::<std::io::Error>(&x, detail),
        PersistError::Read(x) => to_string_from_display_ensures::<std::io::Error>(&x, detail),
        PersistError::TomlRead(x) => to_string_from_display_ensures::<toml::de::Error>(&x, detail),
        PersistError::TomlWrite(x) => to_string_from_display_ensures::<toml::ser::Error>(&x, detail),
    }
}

impl PersistError {
    /// A human-readable description: the kind of failure followed by the
    /// description of the underlying error.
    pub fn message(&self) -> (r: String)
        ensures
            exists|detail: String| #[trigger] describes(*self, detail) && r@ == prefix_of(*self) + detail@,
    {
        let detail = match self {
            PersistError::Write(e) => e.to_string(),
            PersistError::Read(e) => e.to_string(),
            PersistError::TomlRead(e) => e.to_string(),
            PersistError::TomlWrite(e) => e.to_string(),
        };
        let r = self.message_with(&detail);
        assert(describes(*self, detail));
        r
    }

    /// The kind of failure followed by `detail`.
    pub fn message_with(&self, detail: &String) -> (r: String)
        ensures
            r@ == prefix_of(*self) + detail@,
    {
        let mut r = match self {
            PersistError::Write(_) => "cannot write: ".to_owned(),
            PersistError::Read(_) => "cannot read: ".to_owned(),
            PersistError::TomlRead(_) => "toml read error: ".to_owned(),
            PersistError::TomlWrite(_) => "toml write error: ".to_owned(),
        };
        r.append(detail.as_str());
        r
    }

    /// Whether this is a read failure: the one failure `load_or_default` recovers from.
    pub fn is_read(&self) -> (r: bool)
        ensures
            r == (self is Read),
    {
        match self {
            PersistError::Read(_) => true,
            _ => false,
        }
    }
}

} // verus!
