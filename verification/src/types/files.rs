//! An owned path that was checked to exist when it was made.

use vstd::prelude::*;
use vstd::string::StrSliceExecFns;
use std::path::PathBuf;

verus! {

/// A path of the platform. Nothing of its inside is known here but its text.
#[verifier::external_type_specification]
#[verifier::external_body]
pub struct ExPathBuf(PathBuf);

/// The text of a path: its string form on the platform, in which whatever is
/// no Unicode is replaced by U+FFFD.
pub uninterp spec fn path_text(path: PathBuf) -> Seq<char>;

/// `PathBuf::clone` gives a path equal to the one it was called on.
pub assume_specification[ <PathBuf as Clone>::clone ](path: &PathBuf) -> (copy: PathBuf)
    ensures
        copy == *path,
;

/// The path that `text` spells.
///
/// Trusted: calls `PathBuf::from`, which keeps the string as it is, so that
/// its text is `text` again.
#[verifier::external_body]
fn path_from_str(text: &str) -> (path: PathBuf)
    ensures
        path_text(path) == text@,
{
    PathBuf::from(text)
}

/// The text of `path` as an owned string.
///
/// Trusted: calls `Path::to_string_lossy`, a function of the path alone.
#[verifier::external_body]
fn path_to_string_lossy(path: &PathBuf) -> (text: String)
    ensures
        text@ == path_text(*path),
{
    path.to_string_lossy().into_owned()
}

/// Whether `path` leads to something on the filesystem at this moment.
///
/// Trusted: calls `Path::exists`. The answer depends on the filesystem, so
/// nothing is claimed of it.
#[verifier::external_body]
fn path_exists(path: &PathBuf) -> (exists: bool) {
    path.exists()
}

/// What can go wrong with a value of the plugin's surface.
#[derive(Debug, Clone, PartialEq, Eq)]
pub enum Zerror {
    /// Nothing exists at this path.
    FileNotFound(PathBuf),
}

/// A helper struct to represent an owned filepath.
///
/// Caches the path, its display string and the length of that string in
/// characters. The checked constructors refuse a path at which nothing
/// exists. Nothing watches the path afterwards.
#[derive(Debug, Clone, PartialEq, Eq, PartialOrd, Ord, Hash)]
pub struct FilePath {
    /// The path of the file.
    pub path: PathBuf,
    /// The display string.
    pub string: String,
    /// The length of this path in characters.
    pub length: usize,
}

impl FilePath {
    /// The display string is the text of the path, and the length is the
    /// number of its characters.
    pub open spec fn wf(self) -> bool {
        &&& self.string@ == path_text(self.path)
        &&& self.length == self.string@.len()
    }

    /// Makes the value for `path` without asking whether anything exists
    /// there.
    pub fn from_path_unchecked(path: PathBuf) -> (made: Self)
        ensures
            made.path == path,
            made.wf(),
    {
        let string = path_to_string_lossy(&path);
        let length = string.as_str().unicode_len();
        Self { path, string, length }
    }

    /// Makes the value for `path`, of which `exists` says whether anything
    /// was found there.
    pub fn from_probe(path: PathBuf, exists: bool) -> (made: Result<Self, Zerror>)
        ensures
            match made {
                Ok(fp) => exists && fp.path == path && fp.wf(),
                Err(e) => !exists && e == Zerror::FileNotFound(path),
            },
    {
        if !exists {
            return Err(Zerror::FileNotFound(path));
        }
        Ok(Self::from_path_unchecked(path))
    }

    /// Makes the value for `path` if something exists there at this moment.
    pub fn try_from_path(path: PathBuf) -> (made: Result<Self, Zerror>)
        ensures
            match made {
                Ok(fp) => fp.path == path && fp.wf(),
                Err(e) => e == Zerror::FileNotFound(path),
            },
    {
        let exists = path_exists(&path);
        Self::from_probe(path, exists)
    }

    /// Create a new, owned, checked, filepath. This is the preferred way to
    /// create this type.
    pub fn new(pathlike: &str) -> (made: Result<Self, Zerror>)
        ensures
            match made {
                Ok(fp) => fp.string@ == pathlike@ && fp.wf(),
                Err(e) => e matches Zerror::FileNotFound(path) && path_text(path) == pathlike@,
            },
    {
        Self::try_from_path(path_from_str(pathlike))
    }

    /// Create a new instance WITHOUT checking if the path exists. Use with
    /// caution.
    pub fn new_unchecked(pathlike: &str) -> (made: Self)
        ensures
            made.string@ == pathlike@,
            made.wf(),
    {
        Self::from_path_unchecked(path_from_str(pathlike))
    }

    /// Checks a new value for this filepath. The filepath itself is given up
    /// either way.
    pub fn set(self, new_pathlike_value: &str) -> (checked: Result<(), Zerror>)
        ensures
            checked matches Err(e) ==> e matches Zerror::FileNotFound(path) && path_text(path)
                == new_pathlike_value@,
    {
        match Self::new(new_pathlike_value) {
            Ok(_) => Ok(()),
            Err(e) => Err(e),
        }
    }

    /// The display string.
    pub fn as_str(&self) -> (text: &str)
        ensures
            text@ == self.string@,
    {
        self.string.as_str()
    }

    /// The path.
    pub fn as_path(&self) -> (path: &PathBuf)
        ensures
            *path == self.path,
    {
        &self.path
    }
}

} // verus!
