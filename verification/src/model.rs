//! The file that holds the recognition engine's model, and where to fetch it.

use vstd::prelude::*;
use vstd::string::StringExecFns;

verus! {

/// The directory that holds the models.
pub const MODELS_DIR: &'static str = "models";

/// Where the models are published.
pub const MODEL_BASE_URL: &'static str = "https://huggingface.co/ggerganov/whisper.cpp/resolve/main/";

/// The name of the file of the model `name`.
pub open spec fn model_file_of(name: Seq<char>) -> Seq<char> {
    "ggml-"@ + name + ".bin"@
}

/// The address of the model `name`.
pub open spec fn model_url_of(name: Seq<char>) -> Seq<char> {
    MODEL_BASE_URL@ + model_file_of(name)
}

/// Builds [`model_file_of`].
pub fn model_file_name(name: &str) -> (file: String)
    ensures
        file@ == model_file_of(name@),
{
    let mut file = String::from_str("ggml-");
    file.append(name);
    file.append(".bin");
    file
}

/// Builds [`model_url_of`].
pub fn model_url(name: &str) -> (url: String)
    ensures
        url@ == model_url_of(name@),
{
    let file = model_file_name(name);
    let mut url = String::from_str(MODEL_BASE_URL);
    url.append(file.as_str());
    url
}

/// What is reported when the server answers a download with `status`.
pub open spec fn download_failure_of(status: Seq<char>) -> Seq<char> {
    "Error al descargar: HTTP "@ + status
}

/// Builds [`download_failure_of`].
pub fn download_failure(status: &str) -> (detail: String)
    ensures
        detail@ == download_failure_of(status@),
{
    let mut detail = String::from_str("Error al descargar: HTTP ");
    detail.append(status);
    detail
}

/// How far a download has come.
#[derive(Clone, Copy, Debug, PartialEq, Eq, Structural)]
pub struct DownloadProgress {
    /// Bytes written so far.
    pub downloaded: u64,
    /// Bytes that the server announced, or zero where it announced none.
    pub total: u64,
}

/// Whole megabytes in `bytes`, a megabyte being a million bytes.
pub open spec fn megabytes_of(bytes: nat) -> nat {
    bytes / 1_000_000
}

impl DownloadProgress {
    /// The start of a download of `total` bytes.
    pub fn new(total: u64) -> (progress: Self)
        ensures
            progress == (DownloadProgress { downloaded: 0, total }),
    {
        DownloadProgress { downloaded: 0, total }
    }

    /// Counts a chunk of `len` bytes. The count stops at the largest number that it
    /// can hold.
    pub fn advance(&mut self, len: usize)
        ensures
            final(self).total == old(self).total,
            final(self).downloaded == if old(self).downloaded + len <= u64::MAX {
                old(self).downloaded + len
            } else {
                u64::MAX as int
            },
    {
        let room: u64 = u64::MAX - self.downloaded;
        if len as u64 <= room {
            self.downloaded = self.downloaded + len as u64;
        } else {
            self.downloaded = u64::MAX;
        }
    }

    /// Whether there is a share to show: the server announced a size.
    pub fn has_share(&self) -> (known: bool)
        ensures
            known == (self.total > 0),
    {
        self.total > 0
    }

    /// The megabytes written and announced.
    pub fn megabytes(&self) -> (pair: (u64, u64))
        ensures
            pair.0 == megabytes_of(self.downloaded as nat),
            pair.1 == megabytes_of(self.total as nat),
    {
        (self.downloaded / 1_000_000, self.total / 1_000_000)
    }
}

} // verus!
