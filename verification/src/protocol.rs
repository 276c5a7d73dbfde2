//! Requests and answers of the protocol that addresses nodes by identifiers.

pub use crate::server::{InitializationOptions, NamespaceDelimiter, PresentationOptions};

use crate::model;
use vstd::prelude::*;

verus! {

#[derive(Debug, Eq, PartialEq)]
pub struct ProjectSystemsParams {
    pub project_uri: String,
}

#[derive(Debug, Eq, PartialEq)]
pub struct ProjectSystemsResult {
    pub systems: Vec<ProjectSystem>,
}

/// A system of a project.
#[derive(Debug, Eq, PartialEq)]
pub struct ProjectSystem {
    pub name: String,
    pub folder: String,
    pub provider: Option<String>,
    pub destination: Option<String>,
}

#[derive(Debug, Eq, PartialEq)]
pub struct ReadDirectoryParams {
    pub project_uri: String,
    pub system: String,
    /// The directory to list. Without it the root is listed.
    pub parent_id: Option<String>,
}

#[derive(Debug, Eq, PartialEq)]
pub struct ReadDirectoryResult {
    pub entries: Vec<FileSystemEntry>,
    pub modifiable: bool,
}

/// An entry of a directory.
#[derive(Debug, Eq, PartialEq)]
pub struct FileSystemEntry {
    pub id: String,
    pub name: String,
    pub entry_type: EntryType,
    pub extension: Option<String>,
    pub virtual_folder: bool,
}

#[derive(Clone, Copy, Debug, Eq, PartialEq, Structural)]
pub enum EntryType {
    File,
    Directory,
}

#[derive(Debug, Eq, PartialEq)]
pub struct ReadFileParams {
    pub project_uri: String,
    pub system: String,
    pub resource_id: String,
}

#[derive(Debug, Eq, PartialEq)]
pub struct ReadFileResult {
    pub content: String,
    pub language_id: &'static str,
    pub revision: Option<String>,
    pub writable: bool,
}

#[derive(Debug, Eq, PartialEq)]
pub struct ObjectCreationOptionsParams {
    pub project_uri: String,
    pub system: String,
    pub parent_id: Option<String>,
}

#[derive(Debug, Eq, PartialEq)]
pub struct ObjectCreationOptionsResult {
    pub supported: bool,
    pub message: Option<String>,
    pub context_token: Option<String>,
    pub revision: Option<String>,
    pub forms: Vec<ObjectCreationForm>,
    pub transports: Vec<CreationChoice>,
}

#[derive(Debug, Eq, PartialEq)]
pub struct ObjectCreationForm {
    pub id: String,
    pub label: String,
    pub description: Option<String>,
    pub questions: Vec<CreationQuestion>,
}

#[derive(Debug, Eq, PartialEq)]
pub struct CreationQuestion {
    pub id: String,
    pub kind: CreationQuestionKind,
    pub prompt: String,
    /// The default answer, as JSON.
    pub default: Option<String>,
    pub choices: Vec<CreationChoice>,
}

#[derive(Clone, Copy, Debug, Eq, PartialEq, Structural)]
pub enum CreationQuestionKind {
    Input,
    Select,
    Confirm,
}

#[derive(Debug, Eq, PartialEq)]
pub struct CreationChoice {
    pub id: String,
    pub label: String,
    pub description: Option<String>,
}

#[derive(Debug, Eq, PartialEq)]
pub struct RefreshTransportsParams {
    pub project_uri: String,
    pub system: String,
    pub parent_id: Option<String>,
    pub context_token: String,
    pub revision: String,
}

#[derive(Debug, Eq, PartialEq)]
pub struct RefreshTransportsResult {
    pub supported: bool,
    pub message: Option<String>,
    pub context_token: Option<String>,
    pub revision: Option<String>,
    pub transports: Vec<CreationChoice>,
}

pub struct ProjectSystemView {
    pub name: Seq<char>,
    pub folder: Seq<char>,
    pub provider: Option<Seq<char>>,
    pub destination: Option<Seq<char>>,
}

impl View for ProjectSystem {
    type V = ProjectSystemView;

    open spec fn view(&self) -> ProjectSystemView {
        ProjectSystemView {
            name: self.name@,
            folder: self.folder@,
            provider: model::optional(self.provider),
            destination: model::optional(self.destination),
        }
    }
}

impl View for ProjectSystemsResult {
    type V = Seq<ProjectSystemView>;

    open spec fn view(&self) -> Seq<ProjectSystemView> {
        model::views(self.systems@)
    }
}

pub struct FileSystemEntryView {
    pub id: Seq<char>,
    pub name: Seq<char>,
    pub entry_type: EntryType,
    pub extension: Option<Seq<char>>,
    pub virtual_folder: bool,
}

impl View for FileSystemEntry {
    type V = FileSystemEntryView;

    open spec fn view(&self) -> FileSystemEntryView {
        FileSystemEntryView {
            id: self.id@,
            name: self.name@,
            entry_type: self.entry_type,
            extension: model::optional(self.extension),
            virtual_folder: self.virtual_folder,
        }
    }
}

pub struct DirectoryView {
    pub entries: Seq<FileSystemEntryView>,
    pub modifiable: bool,
}

impl View for ReadDirectoryResult {
    type V = DirectoryView;

    open spec fn view(&self) -> DirectoryView {
        DirectoryView { entries: model::views(self.entries@), modifiable: self.modifiable }
    }
}

pub struct FileView {
    pub content: Seq<char>,
    pub language_id: Seq<char>,
    pub revision: Option<Seq<char>>,
    pub writable: bool,
}

impl View for ReadFileResult {
    type V = FileView;

    open spec fn view(&self) -> FileView {
        FileView {
            content: self.content@,
            language_id: self.language_id@,
            revision: model::optional(self.revision),
            writable: self.writable,
        }
    }
}

impl ObjectCreationOptionsResult {
    /// The answer where objects cannot be created, with the reason.
    pub fn unsupported(message: String) -> (result: Self)
        ensures
            !result.supported,
            result.message == Some(message),
            result.context_token is None,
            result.revision is None,
            result.forms@.len() == 0,
            result.transports@.len() == 0,
    {
        ObjectCreationOptionsResult {
            supported: false,
            message: Some(message),
            context_token: None,
            revision: None,
            forms: Vec::new(),
            transports: Vec::new(),
        }
    }
}

impl RefreshTransportsResult {
    /// The answer where transports cannot be found, with the reason.
    pub fn unsupported(message: String) -> (result: Self)
        ensures
            !result.supported,
            result.message == Some(message),
            result.context_token is None,
            result.revision is None,
            result.transports@.len() == 0,
    {
        RefreshTransportsResult {
            supported: false,
            message: Some(message),
            context_token: None,
            revision: None,
            transports: Vec::new(),
        }
    }
}

} // verus!
