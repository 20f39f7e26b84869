//! Source positions: where a piece of the tree came from.

use vstd::prelude::*;

verus! {

/// The part of the build configuration that lowering reads: the file that the
/// source text was read from.
#[derive(Debug, PartialEq, Eq)]
pub struct BuildConfig {
    pub file_name: String,
}

impl Clone for BuildConfig {
    fn clone(&self) -> (copy: Self)
        ensures
            copy == *self,
    {
        BuildConfig { file_name: self.file_name.clone() }
    }
}

impl BuildConfig {
    /// The path of the file being compiled.
    pub fn path(&self) -> (path: String)
        ensures
            path == self.file_name,
    {
        self.file_name.clone()
    }
}

/// The file that spans are attributed to under `config`: none without a configuration.
pub open spec fn path_of(config: Option<&BuildConfig>) -> Option<String> {
    match config {
        Some(c) => Some(c.file_name),
        None => None,
    }
}

/// Computes [`path_of`].
pub fn config_path(config: Option<&BuildConfig>) -> (path: Option<String>)
    ensures
        path == path_of(config),
{
    match config {
        Some(c) => Some(c.path()),
        None => None,
    }
}

/// A range of source text, in bytes, and the file it lies in where that is known.
#[derive(Debug, PartialEq, Eq)]
pub struct Span {
    pub start: usize,
    pub end: usize,
    pub path: Option<String>,
}

impl Clone for Span {
    fn clone(&self) -> (copy: Self)
        ensures
            copy == *self,
    {
        let path = match &self.path {
            Some(p) => Some(p.clone()),
            None => None,
        };
        Span { start: self.start, end: self.end, path }
    }
}

} // verus!
