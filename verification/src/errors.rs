use vstd::prelude::*;

verus! {

/// Failure at the metadata store: the underlying database reported an error,
/// or a looked-up id has no row.
#[derive(Debug)]
pub struct DbError {
    pub details: String,
}

/// Failure while assembling an upload: a part could not be read or persisted.
#[derive(Debug)]
pub struct UploadError {
    pub details: String,
}

/// Failure at the blob store: the archive bytes could not be read or written.
#[derive(Debug)]
pub struct FileError {
    pub details: String,
}

impl DbError {
    pub fn new(details: String) -> (r: DbError)
        ensures
            r.details@ == details@,
    {
        DbError { details }
    }
}

impl UploadError {
    pub fn new(details: String) -> (r: UploadError)
        ensures
            r.details@ == details@,
    {
        UploadError { details }
    }
}

impl FileError {
    pub fn new(details: String) -> (r: FileError)
        ensures
            r.details@ == details@,
    {
        FileError { details }
    }
}

} // verus!
