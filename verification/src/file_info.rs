//! What the sending side announces of a file: its name and its guessed
//! media type, both taken from its path, and its size.

use vstd::prelude::*;
use vstd::string::*;
use crate::names::{file_name, file_name_of};

verus! {

/// What is known of the file to send.
#[derive(Clone, Debug, PartialEq, Eq)]
pub struct FileInfo {
    pub path: String,
    pub name: String,
    pub size: u64,
    pub mime: String,
}

/// Why a file cannot be announced.
#[derive(Clone, Copy, Debug, PartialEq, Eq, Structural)]
pub enum FileError {
    /// The path ends in no file name.
    InvalidFileName,
}

/// The media type that `mime_guess` guesses for `path` by its extension,
/// `application/octet-stream` where it knows none, without parameters.
pub uninterp spec fn guessed_mime(path: Seq<char>) -> Seq<char>;

/// Calls `mime_guess::from_path`, takes the first guess or the type of
/// arbitrary bytes, and gives its essence as a text.
///
/// Trusted: the text is a function of the path.
#[verifier::external_body]
fn guess_mime_call(path: &str) -> (mime: String)
    ensures
        mime@ == guessed_mime(path@),
{
    mime_guess::from_path(path).first_or_octet_stream().essence_str().to_string()
}

/// Mathematical model of a file's description.
pub struct FileInfoView {
    pub path: Seq<char>,
    pub name: Seq<char>,
    pub size: u64,
    pub mime: Seq<char>,
}

impl View for FileInfo {
    type V = FileInfoView;

    open spec fn view(&self) -> FileInfoView {
        FileInfoView { path: self.path@, name: self.name@, size: self.size, mime: self.mime@ }
    }
}

/// The description of the file at `path` with `size` bytes, where the path
/// ends in a file name.
pub open spec fn file_info_of(path: Seq<char>, size: u64) -> Option<FileInfoView> {
    match file_name_of(path) {
        Some(name) => Some(FileInfoView { path, name, size, mime: guessed_mime(path) }),
        None => None,
    }
}

/// Describes the file at `path`, whose size was looked up as `size`: its
/// name is the final component of the path, its media type is guessed
/// from the path.
pub fn file_info(path: &str, size: u64) -> (result: Result<FileInfo, FileError>)
    ensures
        match result {
            Ok(info) => file_info_of(path@, size) == Some(info@),
            Err(e) => file_info_of(path@, size) is None && e == FileError::InvalidFileName,
        },
{
    match file_name(path) {
        Some(name) => Ok(
            FileInfo { path: String::from_str(path), name, size, mime: guess_mime_call(path) },
        ),
        None => Err(FileError::InvalidFileName),
    }
}

} // verus!
