//! Permission records that grant access to URLs, and the parts of the
//! permission descriptor parser that stand on their own.
use crate::text::{ascii_lower, chars_of, has_prefix, has_prefix_exec, to_ascii_lowercase};
use vstd::prelude::*;

verus! {

/// A grant for the URLs that start with `url`.
#[derive(Clone, Debug)]
pub struct Permission {
    pub url: String,
    pub schema: String,
}

impl Permission {
    /// Whether the grant covers `url`: the URL, in ASCII lower case, starts
    /// with the granted prefix.
    pub fn is_permision(&self, url: &str) -> (r: bool)
        ensures
            r == has_prefix(ascii_lower(url@), self.url@),
    {
        let lowered = to_ascii_lowercase(&chars_of(url));
        has_prefix_exec(&lowered, &chars_of(self.url.as_str()))
    }
}

/// Why a permission descriptor could not be read.
#[derive(Debug, Clone, Copy, PartialEq, Eq, Structural)]
pub enum DescriptorParserError {
    EmptyPath,
    CwdResolve,
    EmptyEnvDescriptor,
    EmptySysDescriptor,
    EmptyRunQuery,
    PathResolve,
}

impl DescriptorParserError {
    /// The text that describes the error.
    pub fn message(&self) -> (r: &'static str)
        ensures
            r@ == match *self {
                DescriptorParserError::EmptyPath => "Empty path"@,
                DescriptorParserError::CwdResolve => "Path not found"@,
                DescriptorParserError::EmptyEnvDescriptor => "Empty environment descriptor"@,
                DescriptorParserError::EmptySysDescriptor => "Empty sys descriptor"@,
                DescriptorParserError::EmptyRunQuery => "Empty run descriptor"@,
                DescriptorParserError::PathResolve => "Path resolve error"@,
            },
    {
        match self {
            DescriptorParserError::EmptyPath => "Empty path",
            DescriptorParserError::CwdResolve => "Path not found",
            DescriptorParserError::EmptyEnvDescriptor => "Empty environment descriptor",
            DescriptorParserError::EmptySysDescriptor => "Empty sys descriptor",
            DescriptorParserError::EmptyRunQuery => "Empty run descriptor",
            DescriptorParserError::PathResolve => "Path resolve error",
        }
    }
}

/// The working directory relative descriptors are resolved against.
#[derive(Debug, Clone)]
pub struct EnvCurrentDir {
    pub current_dir: Option<String>,
}

/// Resolves permission descriptors against a working directory.
#[derive(Debug, Clone)]
pub struct RuntimePermissionDescriptorParser {
    current_dir: EnvCurrentDir,
}

impl RuntimePermissionDescriptorParser {
    pub fn new(current_dir: EnvCurrentDir) -> (r: Self)
        ensures
            r.cwd() == crate::models::opt_view(current_dir.current_dir),
    {
        RuntimePermissionDescriptorParser { current_dir }
    }

    pub closed spec fn cwd(&self) -> Option<Seq<char>> {
        crate::models::opt_view(self.current_dir.current_dir)
    }

    /// The working directory; an error when none is set.
    pub fn resolve_cwd(&self) -> (r: Result<String, DescriptorParserError>)
        ensures
            match r {
                Ok(d) => self.cwd() == Some(d@),
                Err(e) => self.cwd() is None && e == DescriptorParserError::CwdResolve,
            },
    {
        match &self.current_dir.current_dir {
            Some(d) => Ok(d.clone()),
            None => Err(DescriptorParserError::CwdResolve),
        }
    }

    /// Check that a text descriptor is not empty; `empty` is the error for
    /// an empty one.
    pub fn require_non_empty(text: &str, empty: DescriptorParserError) -> (r: Result<(), DescriptorParserError>)
        ensures
            r is Ok <==> text@.len() > 0,
            r matches Err(e) ==> e == empty,
    {
        if chars_of(text).len() == 0 {
            Err(empty)
        } else {
            Ok(())
        }
    }
}

} // verus!
