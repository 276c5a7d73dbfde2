//! What became of configuration files.

use crate::model;
use crate::path::FilePath;
use vstd::prelude::*;

verus! {

/// What became of reading and parsing a configuration file.
pub enum FileOutcome<T> {
    /// The file could not be read, for the given reason.
    Unreadable(String),
    /// The file does not hold what it should, for the given reason.
    Malformed(String),
    /// The file holds this.
    Parsed(T),
}

/// An error that can say what is wrong with a configuration file.
pub trait FileError: View + Sized {
    /// What is said of a file that could not be read.
    spec fn read_fault(path: Seq<u8>, source: Seq<char>) -> Self::V;

    /// What is said of a file that does not hold what it should.
    spec fn parse_fault(path: Seq<u8>, message: Seq<char>) -> Self::V;

    /// The error for a file that could not be read.
    fn unreadable(path: FilePath, source: String) -> (error: Self)
        ensures
            error@ == Self::read_fault(path@, source@),
    ;

    /// The error for a file that does not hold what it should.
    fn malformed(path: FilePath, message: String) -> (error: Self)
        ensures
            error@ == Self::parse_fault(path@, message@),
    ;
}

/// What a configuration file holds, or why that is not known.
pub open spec fn file_contents<T, E: FileError>(path: Seq<u8>, file: FileOutcome<T>) -> Result<
    T,
    E::V,
> {
    match file {
        FileOutcome::Unreadable(source) => Err(E::read_fault(path, source@)),
        FileOutcome::Malformed(message) => Err(E::parse_fault(path, message@)),
        FileOutcome::Parsed(value) => Ok(value),
    }
}

/// Takes over the contents of the configuration file at the given path.
pub fn read_config<T, E: FileError>(path: &FilePath, file: FileOutcome<T>) -> (contents: Result<
    T,
    E,
>)
    ensures
        model::failure(contents) == file_contents::<T, E>(path@, file),
{
    match file {
        FileOutcome::Unreadable(source) => Err(E::unreadable(path.clone(), source)),
        FileOutcome::Malformed(message) => Err(E::malformed(path.clone(), message)),
        FileOutcome::Parsed(value) => Ok(value),
    }
}

} // verus!
