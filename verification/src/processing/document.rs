//! A document to index: its text and the name of the file it came from. The
//! file is read by the caller; what was read is judged here.

use vstd::prelude::*;
use vstd::string::StringExecFns;
use crate::error::DocumentError;

verus! {

#[derive(Debug, Clone)]
pub struct Document {
    pub content: String,
    pub file_name: String,
}

impl Document {
    /// The document made of what was read from a file and of the file's
    /// name. Fails when the file could not be read, with the cause in the
    /// message, and else when the path names no file.
    pub fn new(content: Result<String, String>, file_name: Option<String>) -> (r: Result<
        Document,
        DocumentError,
    >)
        ensures
            match content {
                Ok(text) => match file_name {
                    Some(name) => r == Ok::<Document, DocumentError>(
                        Document { content: text, file_name: name },
                    ),
                    None => r is Err && r->Err_0.message()
                        == "Invalid or missing file name in path"@,
                },
                Err(cause) => r is Err && r->Err_0.message() == "Unable to read file at path: "@
                    + cause@,
            },
    {
        let content = match content {
            Ok(text) => text,
            Err(cause) => {
                return Err(
                    DocumentError::Message(
                        String::from_str("Unable to read file at path: ").concat(cause.as_str()),
                    ),
                );
            },
        };
        let file_name = match file_name {
            Some(name) => name,
            None => {
                return Err(
                    DocumentError::Message(
                        String::from_str("Invalid or missing file name in path"),
                    ),
                );
            },
        };
        Ok(Document { content, file_name })
    }
}

} // verus!
