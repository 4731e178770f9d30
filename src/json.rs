//! JSON files of the open mod that are edited against a schema: their names,
//! and what persisting an edit does to the mod's files.
use vstd::prelude::*;

use crate::error::{Error, ErrorKind};
use crate::params::{check_no_parent_ref, contains_parent_ref, ends_with, has_parent_ref, has_suffix};

verus! {

#[verifier::external_type_specification]
#[verifier::external_body]
pub struct ExValue(serde_json::Value);

/// The name of a JSON file of the game's data, relative to the data directory.
#[derive(Clone, Debug)]
pub struct Filename(pub String);

/// The name of the patch file that belongs to a JSON file: `.json` replaced by
/// `.patch.json`.
pub open spec fn patch_name(name: Seq<char>) -> Seq<char> {
    name.subrange(0, name.len() - 5) + ".patch.json"@
}

impl Filename {
    /// Holds no `..` and ends in `.json`.
    pub open spec fn is_valid(&self) -> bool {
        !has_parent_ref(self.0@) && has_suffix(self.0@, ".json"@)
    }

    pub fn validate(&self) -> (r: Result<(), Error>)
        ensures
            r is Ok <==> self.is_valid(),
            r matches Err(e) ==> e.kind == ErrorKind::Parameter,
            r matches Err(e) ==> e.message@ == if has_parent_ref(self.0@) {
                "must not contain `..`"@
            } else {
                "must end with `.json`"@
            },
    {
        if contains_parent_ref(self.0.as_str()) {
            return Err(Error::new(ErrorKind::Parameter, "must not contain `..`"));
        }
        if !ends_with(self.0.as_str(), ".json") {
            return Err(Error::new(ErrorKind::Parameter, "must end with `.json`"));
        }
        Ok(())
    }

    pub fn as_str(&self) -> (r: &str)
        ensures
            r@ == self.0@,
    {
        self.0.as_str()
    }

    /// The name of the patch file beside this file.
    pub fn patch_filename(&self) -> (r: Filename)
        requires
            has_suffix(self.0@, ".json"@),
        ensures
            r.0@ == patch_name(self.0@),
    {
        proof {
            reveal_strlit(".json");
        }
        let n = self.0.unicode_len();
        let stem = self.0.as_str().substring_char(0, n - 5);
        let mut f = stem.to_owned();
        f.append(".patch.json");
        Filename(f)
    }
}

/// Parameters of the operation that opens a JSON file with its schema.
#[derive(Clone, Debug)]
pub struct OpenJsonWithSchema {
    pub filename: Filename,
}

impl OpenJsonWithSchema {
    pub fn name() -> (r: &'static str)
        ensures
            r@ == "open_json_with_schema"@,
    {
        "open_json_with_schema"
    }

    pub fn validate(&self) -> (r: Result<(), Error>)
        ensures
            r is Ok <==> self.filename.is_valid(),
            r matches Err(e) ==> e.kind == ErrorKind::Parameter,
            r matches Err(e) ==> e.message@ == "failed to validate filename"@ + ": "@ + if has_parent_ref(self.filename.0@) {
                "must not contain `..`"@
            } else {
                "must end with `.json`"@
            },
    {
        match self.filename.validate() {
            Ok(()) => Ok(()),
            Err(e) => Err(e.with_context("failed to validate filename")),
        }
    }
}

/// What persisting does to one file of the mod.
#[derive(Clone, Copy, Debug, PartialEq, Eq, Structural)]
pub enum FileAction {
    Write,
    Delete,
}

/// What the mod holds of a JSON file: the value that replaces the file, and
/// the patches kept beside it.
#[derive(Debug)]
pub struct Persisted {
    pub value: Option<serde_json::Value>,
    pub patch: Option<Vec<serde_json::Value>>,
}

/// Parameters of the operation that stores an edited JSON file.
#[derive(Debug)]
pub struct PersistJson {
    pub filename: Filename,
    pub values: Persisted,
}

impl PersistJson {
    pub fn name() -> (r: &'static str)
        ensures
            r@ == "persist_json"@,
    {
        "persist_json"
    }

    pub fn validate(&self) -> (r: Result<(), Error>)
        ensures
            r is Ok <==> self.filename.is_valid(),
            r matches Err(e) ==> e.kind == ErrorKind::Parameter,
            r matches Err(e) ==> e.message@ == if has_parent_ref(self.filename.0@) {
                "file path cannot contain `..`"@
            } else {
                "failed to validate filename"@ + ": "@ + "must end with `.json`"@
            },
    {
        check_no_parent_ref(self.filename.0.as_str())?;
        match self.filename.validate() {
            Ok(()) => Ok(()),
            Err(e) => Err(e.with_context("failed to validate filename")),
        }
    }

    /// What happens to the file and to its patch file: a value is written,
    /// its absence deletes the file; patches are written unless there are
    /// none, which deletes the patch file.
    pub fn plan(&self) -> (r: (FileAction, FileAction))
        ensures
            r.0 == if self.values.value is Some {
                FileAction::Write
            } else {
                FileAction::Delete
            },
            r.1 == match self.values.patch {
                Some(p) => if p@.len() > 0 {
                    FileAction::Write
                } else {
                    FileAction::Delete
                },
                None => FileAction::Delete,
            },
    {
        let value_action = if self.values.value.is_some() {
            FileAction::Write
        } else {
            FileAction::Delete
        };
        let patch_action = match &self.values.patch {
            Some(p) => if p.len() > 0 {
                FileAction::Write
            } else {
                FileAction::Delete
            },
            None => FileAction::Delete,
        };
        (value_action, patch_action)
    }
}

} // verus!
