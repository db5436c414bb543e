//! The remote side of a run: the address an addon's archive is downloaded
//! from, and what a reply of the host amounts to. The request itself is the
//! caller's part.

use vstd::prelude::*;
use vstd::string::StringExecFns;

verus! {

/// The address of the archive of the addon `id`: the identifier is put
/// between the two fixed parts as it is.
pub open spec fn download_url_of(id: Seq<char>) -> Seq<char> {
    "https://cdn.esoui.com/downloads/file"@ + id + "/"@
}

/// The address of the archive of the addon `id`.
pub fn download_url(id: &str) -> (url: String)
    ensures
        url@ == download_url_of(id@),
{
    let mut url = String::from_str("https://cdn.esoui.com/downloads/file");
    url.append(id);
    url.append("/");
    url
}

/// The status codes by which the host says that the reply holds the archive.
pub open spec fn success_status(status: u16) -> bool {
    200 <= status < 300
}

/// Whether `status` says that the reply holds the archive.
pub fn is_success(status: u16) -> (b: bool)
    ensures
        b == success_status(status),
{
    200 <= status && status < 300
}

/// What came of one request.
#[derive(Clone, Debug, PartialEq, Eq)]
pub enum FetchReply {
    /// The host replied, with this status code and this body.
    Response { status: u16, body: Vec<u8> },
    /// No reply was had, for this reason.
    Failed { reason: String },
}

/// The mathematical content of a [`FetchReply`].
pub enum FetchReplyView {
    Response { status: u16, body: Seq<u8> },
    Failed { reason: Seq<char> },
}

impl View for FetchReply {
    type V = FetchReplyView;

    open spec fn view(&self) -> FetchReplyView {
        match self {
            FetchReply::Response { status, body } => FetchReplyView::Response {
                status: *status,
                body: body@,
            },
            FetchReply::Failed { reason } => FetchReplyView::Failed { reason: reason@ },
        }
    }
}

/// The archive bytes that a reply stands for: its body where the status says
/// success, and no bytes at all otherwise.
pub open spec fn received_archive(status: u16, body: Seq<u8>) -> Seq<u8> {
    if success_status(status) {
        body
    } else {
        Seq::empty()
    }
}

/// The archive bytes that a reply stands for, see [`received_archive`].
pub fn archive_of_response(status: u16, body: Vec<u8>) -> (archive: Vec<u8>)
    ensures
        archive@ == received_archive(status, body@),
{
    if is_success(status) {
        body
    } else {
        Vec::new()
    }
}

} // verus!
