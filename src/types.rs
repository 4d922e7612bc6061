use vstd::prelude::*;

verus! {

/// Descriptive data attached to a content object.
#[derive(Clone, Debug, PartialEq, Eq)]
pub struct ContentMetadata {
    pub name: String,
    pub size: u64,
    pub content_type: String,
    pub owner: String,
    pub created_at: u64,
    pub expires_at: Option<u64>,
    /// Hash of the content for integrity verification
    pub content_hash: Option<String>,
}

/// The metadata `m` with its content hash set to `h`.
pub open spec fn stamped(m: ContentMetadata, h: String) -> ContentMetadata {
    ContentMetadata {
        name: m.name,
        size: m.size,
        content_type: m.content_type,
        owner: m.owner,
        created_at: m.created_at,
        expires_at: m.expires_at,
        content_hash: Some(h),
    }
}

/// The ways in which an operation can be refused by the registry.
#[derive(Clone, Copy, Debug, PartialEq, Eq, Structural)]
pub enum DcdnError {
    DuplicateContent,
    ContentNotFound,
    NodeNotFound,
    NodeAlreadyRegistered,
}

/// The short message that describes an error.
pub open spec fn error_text(e: DcdnError) -> Seq<char> {
    match e {
        DcdnError::DuplicateContent => "Content with this hash already exists"@,
        DcdnError::ContentNotFound => "Content not found"@,
        DcdnError::NodeNotFound => "Node does not exist"@,
        DcdnError::NodeAlreadyRegistered => "Node already registered"@,
    }
}

impl DcdnError {
    pub fn message(&self) -> (r: String)
        ensures
            r@ == error_text(*self),
    {
        match self {
            DcdnError::DuplicateContent => String::from_str("Content with this hash already exists"),
            DcdnError::ContentNotFound => String::from_str("Content not found"),
            DcdnError::NodeNotFound => String::from_str("Node does not exist"),
            DcdnError::NodeAlreadyRegistered => String::from_str("Node already registered"),
        }
    }
}

/// The application's interface marker: its operations are [`Operation`]
/// values and its answers [`DCDNResponse`] values.
pub struct DCDNAbi;

/// One request to the registry.
#[derive(Clone, Debug, PartialEq, Eq)]
pub enum Operation {
    /// Upload content to the CDN
    Upload { content: Vec<u8>, metadata: ContentMetadata },
    /// Request to cache content on a specific node
    RequestCache { content_id: String, node_id: String },
    /// Update content availability information
    UpdateAvailability { content_id: String, node_id: String, available: bool },
    /// Request content download
    Download { content_id: String },
    /// Register a new CDN node
    RegisterNode { node_id: String, location: String, capacity: u64 },
    /// Report bandwidth usage for payment
    ReportUsage { node_id: String, content_id: String, bytes_served: u64 },
    /// Update content metadata
    UpdateMetadata { content_id: String, metadata: ContentMetadata },
}

/// The answer to one [`Operation`].
#[derive(Clone, Debug, PartialEq, Eq)]
pub enum DCDNResponse {
    UploadSuccess { content_id: String },
    DownloadSuccess { content: Vec<u8> },
    CacheRequestAccepted,
    NodeRegistered,
    UsageReported,
    MetadataUpdated,
    Error { message: String },
}

/// `resp` reports the error `e`.
pub open spec fn is_error(resp: DCDNResponse, e: DcdnError) -> bool {
    resp matches DCDNResponse::Error { message } && message@ == error_text(e)
}

/// `resp` reports the outcome `r` of an operation whose success is `ok`.
pub open spec fn unit_reply(resp: DCDNResponse, r: Result<(), DcdnError>, ok: DCDNResponse) -> bool {
    match r {
        Ok(_) => resp == ok,
        Err(e) => is_error(resp, e),
    }
}

/// `resp` reports the outcome `r` of an upload.
pub open spec fn upload_reply(resp: DCDNResponse, r: Result<String, DcdnError>) -> bool {
    match r {
        Ok(h) => resp == (DCDNResponse::UploadSuccess { content_id: h }),
        Err(e) => is_error(resp, e),
    }
}

/// `resp` reports the outcome `r` of a download.
pub open spec fn download_reply(resp: DCDNResponse, r: Result<Vec<u8>, DcdnError>) -> bool {
    match r {
        Ok(b) => resp == (DCDNResponse::DownloadSuccess { content: b }),
        Err(e) => is_error(resp, e),
    }
}

/// The answer that reports `r`, with `ok` for success.
pub fn reply_unit(r: Result<(), DcdnError>, ok: DCDNResponse) -> (resp: DCDNResponse)
    ensures
        unit_reply(resp, r, ok),
{
    match r {
        Ok(()) => ok,
        Err(e) => DCDNResponse::Error { message: e.message() },
    }
}

} // verus!
