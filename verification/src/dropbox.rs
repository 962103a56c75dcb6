//! The Dropbox HTTP API as the storage layer sees it: endpoints, the
//! answers it decodes, and the errors that a response status stands for.

use vstd::prelude::*;
use vstd::string::StringExecFns;

verus! {

/// Header that carries the JSON argument of a content request.
pub const DROPBOX_ARG_HEADER: &'static str = "Dropbox-API-Arg";

/// Base URL of the RPC endpoints.
pub const DROPBOX_BASE_API: &'static str = "https://api.dropboxapi.com/2/";

/// Base URL of the content endpoints.
pub const DROPBOX_BASE_CONTENT: &'static str = "https://content.dropboxapi.com/2/";

/// Why a Dropbox request failed.
#[derive(Clone, Copy, Debug, PartialEq, Eq, Structural)]
pub enum Error {
    BadInput,
    TokenExpired,
    Endpoint,
    RateLimited,
    /// Any other status, which is kept.
    Internal(u16),
}

/// The error that an HTTP status stands for; `None` for 200.
pub open spec fn status_error(status: u16) -> Option<Error> {
    if status == 200 {
        None
    } else if status == 400 {
        Some(Error::BadInput)
    } else if status == 403 {
        Some(Error::TokenExpired)
    } else if status == 409 {
        Some(Error::Endpoint)
    } else if status == 429 {
        Some(Error::RateLimited)
    } else {
        Some(Error::Internal(status))
    }
}

impl Error {
    /// The text that names this error.
    pub open spec fn spec_describe(self) -> Seq<char> {
        match self {
            Error::BadInput => "BadInput"@,
            Error::TokenExpired => "TokenExpired"@,
            Error::Endpoint => "Endpoint"@,
            Error::RateLimited => "RateLimited"@,
            Error::Internal(_) => "Internal Error"@,
        }
    }

    /// Maps the status of a response to the error it stands for. Only 200
    /// passes.
    pub fn map_status(status: u16) -> (res: Result<(), Error>)
        ensures
            match status_error(status) {
                None => res == Ok::<(), Error>(()),
                Some(e) => res == Err::<(), Error>(e),
            },
    {
        if status == 200 {
            Ok(())
        } else if status == 400 {
            Err(Error::BadInput)
        } else if status == 403 {
            Err(Error::TokenExpired)
        } else if status == 409 {
            Err(Error::Endpoint)
        } else if status == 429 {
            Err(Error::RateLimited)
        } else {
            Err(Error::Internal(status))
        }
    }

    /// The text that names this error.
    pub fn describe(&self) -> (t: String)
        ensures
            t@ == self.spec_describe(),
    {
        match self {
            Error::BadInput => String::from_str("BadInput"),
            Error::TokenExpired => String::from_str("TokenExpired"),
            Error::Endpoint => String::from_str("Endpoint"),
            Error::RateLimited => String::from_str("RateLimited"),
            Error::Internal(_) => String::from_str("Internal Error"),
        }
    }
}

/// The operations of the API that the storage layer calls.
#[derive(Clone, Copy, Debug, PartialEq, Eq, Structural)]
pub enum Endpoint {
    ListFolder,
    FileUpload,
    CreateFolder,
}

/// The answer to a folder listing.
#[derive(Debug)]
pub struct ListFolderResult {
    pub entries: Vec<ListFolderEntry>,
    pub has_more: bool,
}

/// One entry of a folder listing.
#[derive(Debug)]
pub struct ListFolderEntry {
    /// The kind of the entry, sent under the key `.tag`.
    pub tag: String,
    pub name: String,
    pub path_lower: String,
    pub path_display: String,
    pub id: String,
}

/// The answer to a file upload.
#[derive(Debug)]
pub struct FileUploadResult {
    pub name: String,
    pub id: String,
    pub size: usize,
    pub server_modified: String,
    pub path_lower: String,
    pub path_display: String,
    pub content_hash: String,
}

/// The answer to a folder creation.
#[derive(Debug)]
pub struct CreateFolderResult {
    pub name: String,
}

/// The URL of an endpoint: its base followed by its route.
pub open spec fn endpoint_url(endpoint: Endpoint) -> Seq<char> {
    match endpoint {
        Endpoint::ListFolder => DROPBOX_BASE_API@ + "files/list_folder"@,
        Endpoint::CreateFolder => DROPBOX_BASE_API@ + "files/create_folder_v2"@,
        Endpoint::FileUpload => DROPBOX_BASE_CONTENT@ + "files/upload"@,
    }
}

/// The URL of an endpoint.
#[inline]
pub fn build_endpoint_url(endpoint: Endpoint) -> (url: String)
    ensures
        url@ == endpoint_url(endpoint),
{
    match endpoint {
        Endpoint::ListFolder => String::from_str(DROPBOX_BASE_API).concat("files/list_folder"),
        Endpoint::CreateFolder => String::from_str(DROPBOX_BASE_API).concat(
            "files/create_folder_v2",
        ),
        Endpoint::FileUpload => String::from_str(DROPBOX_BASE_CONTENT).concat("files/upload"),
    }
}

} // verus!
