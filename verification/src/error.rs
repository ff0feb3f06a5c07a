//! Error taxonomy of the scaffolding engine: name validation, directory
//! creation, and file production failures, each carrying the offending path
//! and a cause description.

use vstd::prelude::*;

verus! {

/// An error of a scaffold run. Every error is fatal to the run; nothing is
/// retried. `CreateFile` unifies a missing catalog entry's sibling failures
/// (decode and render failures, and I/O failures reported by the driver),
/// while staying distinguishable through its description.
#[derive(Debug, Clone)]
pub enum CliError {
    CreateDir { dir: String, description: String },
    CreateFile { file: String, description: String },
    MissingFile { file: String },
    ProjectName,
}

/// The mathematical value of an error.
pub enum CliErrorView {
    CreateDir { dir: Seq<char>, description: Seq<char> },
    CreateFile { file: Seq<char>, description: Seq<char> },
    MissingFile { file: Seq<char> },
    ProjectName,
}

impl View for CliError {
    type V = CliErrorView;

    open spec fn view(&self) -> CliErrorView {
        match self {
            CliError::CreateDir { dir, description } => CliErrorView::CreateDir {
                dir: dir@,
                description: description@,
            },
            CliError::CreateFile { file, description } => CliErrorView::CreateFile {
                file: file@,
                description: description@,
            },
            CliError::MissingFile { file } => CliErrorView::MissingFile { file: file@ },
            CliError::ProjectName => CliErrorView::ProjectName,
        }
    }
}

/// The single descriptive line reported to the user for an error.
pub open spec fn cli_message_of(e: CliErrorView) -> Seq<char> {
    match e {
        CliErrorView::CreateDir { dir, description } => "Unable to create directory '"@ + dir + "': "@
            + description + "!"@,
        CliErrorView::CreateFile { file, description } => "Unable to write file '"@ + file + "': "@
            + description + "!"@,
        CliErrorView::MissingFile { file } => "Unable to write file '"@ + file
            + "': Source file is missing!"@,
        CliErrorView::ProjectName => "The project name must start with a letter and contain only alphanumeric characters and underscores!"@,
    }
}

impl CliError {
    pub fn create_dir_err(dir: String, description: String) -> (r: Self)
        ensures
            r == (CliError::CreateDir { dir, description }),
    {
        CliError::CreateDir { dir, description }
    }

    pub fn create_file_err(file: String, description: String) -> (r: Self)
        ensures
            r == (CliError::CreateFile { file, description }),
    {
        CliError::CreateFile { file, description }
    }

    pub fn missing_file_err(file: String) -> (r: Self)
        ensures
            r == (CliError::MissingFile { file }),
    {
        CliError::MissingFile { file }
    }

    pub fn project_name_err() -> (r: Self)
        ensures
            r == CliError::ProjectName,
    {
        CliError::ProjectName
    }

    /// Renders the error as one human-readable line.
    pub fn message(&self) -> (r: String)
        ensures
            r@ == cli_message_of(self@),
    {
        match self {
            CliError::CreateDir { dir, description } => {
                let mut r = String::from_str("Unable to create directory '");
                r.append(dir.as_str());
                r.append("': ");
                r.append(description.as_str());
                r.append("!");
                r
            },
            CliError::CreateFile { file, description } => {
                let mut r = String::from_str("Unable to write file '");
                r.append(file.as_str());
                r.append("': ");
                r.append(description.as_str());
                r.append("!");
                r
            },
            CliError::MissingFile { file } => {
                let mut r = String::from_str("Unable to write file '");
                r.append(file.as_str());
                r.append("': Source file is missing!");
                r
            },
            CliError::ProjectName => {
                String::from_str(
                    "The project name must start with a letter and contain only alphanumeric characters and underscores!",
                )
            },
        }
    }
}

} // verus!
