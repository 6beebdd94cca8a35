//! Configuration: where the TOML file is, and the errors of reading it.
use vstd::prelude::*;

verus! {

/// A configuration store failed.
#[derive(Debug)]
pub enum JimoConfStorageError {
    Any(String),
}

/// Reading a configuration item failed.
#[derive(Debug)]
pub enum JimoConfError {
    Storage(JimoConfStorageError),
    ItemNotFound(String),
    Serde(serde_json::Error),
    MgrNotFound,
}

/// The JSON error type of `serde_json`, carried unread.
#[verifier::external_type_specification]
#[verifier::external_body]
pub struct ExSerdeJsonError(serde_json::Error);

impl JimoConfError {
    /// The item named `name` is not configured.
    pub fn item_not_found(name: &str) -> (r: Self)
        ensures
            r matches JimoConfError::ItemNotFound(n) && n@ == name@,
    {
        JimoConfError::ItemNotFound(name.to_owned())
    }
}

/// A configuration read from the TOML file at `path`.
pub struct JimoFigmentStorage {
    path: String,
}

impl JimoFigmentStorage {
    pub closed spec fn spec_path(&self) -> Seq<char> {
        self.path@
    }

    /// A builder with no path set.
    pub fn builder() -> (r: JimoConfStorageBuilder)
        ensures
            r.spec_path() is None,
    {
        JimoConfStorageBuilder { path: None }
    }

    /// The TOML file to read.
    pub fn path(&self) -> (r: &str)
        ensures
            r@ == self.spec_path(),
    {
        self.path.as_str()
    }
}

/// Collects what a configuration store needs.
pub struct JimoConfStorageBuilder {
    path: Option<String>,
}

impl JimoConfStorageBuilder {
    pub closed spec fn spec_path(&self) -> Option<Seq<char>> {
        match self.path {
            Some(p) => Some(p@),
            None => None,
        }
    }

    /// Sets the TOML file to read, replacing any earlier one.
    pub fn path(self, path: &str) -> (r: Self)
        ensures
            r.spec_path() == Some(path@),
    {
        JimoConfStorageBuilder { path: Some(path.to_owned()) }
    }

    /// The store for the path; without a path, "path is required".
    pub fn build(self) -> (r: Result<JimoFigmentStorage, JimoConfStorageError>)
        ensures
            match self.spec_path() {
                Some(p) => r matches Ok(s) && s.spec_path() == p,
                None => r matches Err(JimoConfStorageError::Any(m)) && m@ == "path is required"@,
            },
    {
        match self.path {
            Some(path) => Ok(JimoFigmentStorage { path }),
            None => Err(JimoConfStorageError::Any("path is required".to_owned())),
        }
    }
}

impl Default for JimoConfStorageBuilder {
    /// No path set.
    fn default() -> (r: Self)
        ensures
            r.spec_path() is None,
    {
        JimoConfStorageBuilder { path: None }
    }
}

} // verus!
