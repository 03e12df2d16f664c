//! What the file transfer service decides: how a request of a remote peer is
//! answered from the file storage, what a failure costs the peer, and what a
//! reply to one of the node's own requests means.
//!
//! Requests and replies come here decoded; the bytes on the wire are the
//! caller's.
use vstd::prelude::*;
use crate::in_memory::{file_of, generate_proof_post, write_chunk_post, FileStorage, FileView};
use crate::traits::{FileStorageError, FileStorageWriteStatus};
use crate::bytes::same_digest;
use crate::types::{FileProof, Key};

verus! {

/// The change of reputation of a peer that sent a bad request.
pub const BAD_REQUEST_REPUTATION: i32 = -4096;

/// A request of a remote peer.
#[derive(Debug, Clone, PartialEq, Eq)]
pub enum RemoteRequest {
    /// Store a chunk, which comes with its proof.
    RemoteUploadDataRequest { file_key: Key, file_chunk_with_proof: FileProof },
    /// Send a chunk with its proof.
    RemoteDownloadDataRequest { file_key: Key, file_chunk_id: u64 },
}

/// The answer to a request of a remote peer.
#[derive(Debug, Clone, PartialEq, Eq)]
pub enum RemoteResponse {
    /// Whether the chunk was stored.
    RemoteUploadDataResponse { success: bool },
    /// The chunk with its proof, where the node could give it.
    RemoteDownloadDataResponse { file_chunk_with_proof: Option<FileProof> },
}

/// Why a request of a remote peer could not be handled.
#[derive(Debug, Clone, Copy, PartialEq, Eq, Structural)]
pub enum HandleRequestError {
    /// The request could not be decoded.
    DecodeProto,
    /// The response could not be encoded.
    EncodeProto,
    /// The response could not be sent.
    SendResponse,
    /// The request held no request data.
    BadRequest,
    /// Encoding or decoding of some data failed.
    Codec,
}

/// Why an uploaded chunk was not stored.
#[derive(Debug, Clone, Copy, PartialEq, Eq, Structural)]
pub enum UploadRefusal {
    /// The node expects no such file.
    UnknownFile,
    /// The proof leads to another root than the file's fingerprint.
    WrongRoot,
    /// The proof does not hold.
    BadProof,
    /// The storage refused the chunk.
    Storage(FileStorageError),
}

/// What the handling of an uploaded chunk does to the storage `pre`, and what
/// it reports.
///
/// A chunk is written only to a file that the storage knows, under a proof
/// that leads to the file's fingerprint and holds. What is then reported and
/// stored is what the write reports and stores.
pub open spec fn upload_post(
    pre: Map<Seq<u8>, FileView>,
    key: Seq<u8>,
    proof: FileProof,
    r: Result<FileStorageWriteStatus, UploadRefusal>,
    post: Map<Seq<u8>, FileView>,
) -> bool {
    if !pre.contains_key(key) {
        r == Err::<FileStorageWriteStatus, UploadRefusal>(UploadRefusal::UnknownFile) && post == pre
    } else if proof.root@ != pre[key].metadata.fingerprint {
        r == Err::<FileStorageWriteStatus, UploadRefusal>(UploadRefusal::WrongRoot) && post == pre
    } else if !proof.holds() {
        r == Err::<FileStorageWriteStatus, UploadRefusal>(UploadRefusal::BadProof) && post == pre
    } else {
        match r {
            Ok(status) => write_chunk_post(
                pre,
                key,
                proof.proven.key,
                proof.proven.data@,
                Ok::<FileStorageWriteStatus, FileStorageError>(status),
                post,
            ),
            Err(UploadRefusal::Storage(e)) => write_chunk_post(
                pre,
                key,
                proof.proven.key,
                proof.proven.data@,
                Err::<FileStorageWriteStatus, FileStorageError>(e),
                post,
            ),
            Err(_) => false,
        }
    }
}

/// Stores an uploaded chunk after checking its proof against the fingerprint
/// of the file.
pub fn on_remote_upload_data_request<S: FileStorage>(storage: &mut S, file_key: &Key, proof: &FileProof) -> (r:
    Result<FileStorageWriteStatus, UploadRefusal>)
    requires
        old(storage).valid(),
    ensures
        final(storage).valid(),
        upload_post(old(storage).files(), file_key@, *proof, r, final(storage).files()),
{
    let metadata = match storage.get_metadata(file_key) {
        Err(_) => {
            return Err(UploadRefusal::UnknownFile);
        },
        Ok(metadata) => metadata,
    };
    if !same_digest(&proof.root, &metadata.fingerprint) {
        return Err(UploadRefusal::WrongRoot);
    }
    if !proof.verify() {
        return Err(UploadRefusal::BadProof);
    }
    match storage.write_chunk(file_key, &proof.proven.key, &proof.proven.data) {
        Ok(status) => Ok(status),
        Err(e) => Err(UploadRefusal::Storage(e)),
    }
}

/// Gives a chunk with its proof.
pub fn on_remote_download_data_request<S: FileStorage>(storage: &S, file_key: &Key, file_chunk_id: u64) -> (r:
    Result<FileProof, FileStorageError>)
    requires
        storage.valid(),
    ensures
        generate_proof_post(file_of(storage.files(), file_key@), file_chunk_id, r),
{
    storage.generate_proof(file_key, &file_chunk_id)
}

/// What a request of a remote peer does to the storage `pre`, and what is
/// answered.
pub open spec fn handle_post(
    pre: Map<Seq<u8>, FileView>,
    request: Option<RemoteRequest>,
    r: Result<RemoteResponse, HandleRequestError>,
    post: Map<Seq<u8>, FileView>,
) -> bool {
    match request {
        None => r == Err::<RemoteResponse, HandleRequestError>(HandleRequestError::BadRequest) && post == pre,
        Some(RemoteRequest::RemoteUploadDataRequest { file_key, file_chunk_with_proof }) => {
            &&& r matches Ok(RemoteResponse::RemoteUploadDataResponse { success })
            &&& exists|outcome: Result<FileStorageWriteStatus, UploadRefusal>|
                upload_post(pre, file_key@, file_chunk_with_proof, outcome, post) && success == (outcome is Ok)
        },
        Some(RemoteRequest::RemoteDownloadDataRequest { file_key, file_chunk_id }) => {
            &&& post == pre
            &&& r matches Ok(RemoteResponse::RemoteDownloadDataResponse { file_chunk_with_proof })
            &&& match file_chunk_with_proof {
                Some(proof) => generate_proof_post(
                    file_of(pre, file_key@),
                    file_chunk_id,
                    Ok::<FileProof, FileStorageError>(proof),
                ),
                None => exists|e: FileStorageError|
                    generate_proof_post(file_of(pre, file_key@), file_chunk_id, Err::<FileProof, FileStorageError>(e)),
            }
        },
    }
}

/// Answers a request of a remote peer from the storage. A request without
/// request data is a bad request.
pub fn handle_request<S: FileStorage>(storage: &mut S, request: Option<RemoteRequest>) -> (r: Result<
    RemoteResponse,
    HandleRequestError,
>)
    requires
        old(storage).valid(),
    ensures
        final(storage).valid(),
        handle_post(old(storage).files(), request, r, final(storage).files()),
{
    match request {
        None => Err(HandleRequestError::BadRequest),
        Some(RemoteRequest::RemoteUploadDataRequest { file_key, file_chunk_with_proof }) => {
            let outcome = on_remote_upload_data_request(storage, &file_key, &file_chunk_with_proof);
            Ok(RemoteResponse::RemoteUploadDataResponse { success: outcome.is_ok() })
        },
        Some(RemoteRequest::RemoteDownloadDataRequest { file_key, file_chunk_id }) => {
            match on_remote_download_data_request(storage, &file_key, file_chunk_id) {
                Ok(proof) => Ok(RemoteResponse::RemoteDownloadDataResponse { file_chunk_with_proof: Some(proof) }),
                Err(e) => Ok(RemoteResponse::RemoteDownloadDataResponse { file_chunk_with_proof: None }),
            }
        },
    }
}

/// Word that an upload request has come in from a remote peer.
#[derive(Debug, Clone, PartialEq, Eq)]
pub struct RemoteUploadRequest {
    /// Location of the file that the upload is for; not known from the request.
    pub location: String,
}

/// The event that a request of a remote peer gives rise to: an upload request
/// is made known, with no location; any other request gives none.
pub fn upload_event(request: &Option<RemoteRequest>) -> (event: Option<RemoteUploadRequest>)
    ensures
        event is Some <==> request matches Some(RemoteRequest::RemoteUploadDataRequest { .. }),
        event matches Some(e) ==> e.location@.len() == 0,
{
    match request {
        Some(RemoteRequest::RemoteUploadDataRequest { .. }) => Some(RemoteUploadRequest { location: String::new() }),
        _ => None,
    }
}

/// Why a request without request data is a bad request, in words.
pub fn bad_request_reason() -> (reason: &'static str)
    ensures
        reason@ == "Remote request without request data."@,
{
    "Remote request without request data."
}

/// What a failure to handle a request costs the peer that sent it: a bad
/// request costs reputation, any other failure nothing.
pub fn reputation_change(error: HandleRequestError) -> (change: Option<i32>)
    ensures
        change == (if error == HandleRequestError::BadRequest {
            Some(BAD_REQUEST_REPUTATION)
        } else {
            None
        }),
{
    match error {
        HandleRequestError::BadRequest => Some(BAD_REQUEST_REPUTATION),
        _ => None,
    }
}

/// Why a request of the node to a remote peer has no answer.
#[derive(Debug, Clone, Copy, PartialEq, Eq, Structural)]
pub enum RequestError {
    /// The request failed on the network.
    RequestFailure,
    /// The reply was not a valid message.
    DecodeError,
    /// The reply was decoded, but it was not the expected one.
    UnexpectedResponse,
}

/// What came back for a request of the node to a remote peer.
#[derive(Debug, Clone, PartialEq, Eq)]
pub enum NetworkReply {
    /// The request failed on the network.
    Failed,
    /// Bytes came back that are no message.
    Undecodable,
    /// A message came back, with or without a response in it.
    Decoded(Option<RemoteResponse>),
}

/// Reads the reply to an upload request: whether the peer stored the chunk.
pub fn upload_response(reply: NetworkReply) -> (r: Result<bool, RequestError>)
    ensures
        r == (match reply {
            NetworkReply::Failed => Err::<bool, RequestError>(RequestError::RequestFailure),
            NetworkReply::Undecodable => Err::<bool, RequestError>(RequestError::DecodeError),
            NetworkReply::Decoded(Some(RemoteResponse::RemoteUploadDataResponse { success })) => Ok::<
                bool,
                RequestError,
            >(success),
            NetworkReply::Decoded(_) => Err::<bool, RequestError>(RequestError::UnexpectedResponse),
        }),
{
    match reply {
        NetworkReply::Failed => Err(RequestError::RequestFailure),
        NetworkReply::Undecodable => Err(RequestError::DecodeError),
        NetworkReply::Decoded(Some(RemoteResponse::RemoteUploadDataResponse { success })) => Ok(success),
        NetworkReply::Decoded(_) => Err(RequestError::UnexpectedResponse),
    }
}

/// Reads the reply to a download request: the chunk with its proof, where the
/// peer gave one.
pub fn download_response(reply: NetworkReply) -> (r: Result<Option<FileProof>, RequestError>)
    ensures
        r == (match reply {
            NetworkReply::Failed => Err::<Option<FileProof>, RequestError>(RequestError::RequestFailure),
            NetworkReply::Undecodable => Err::<Option<FileProof>, RequestError>(RequestError::DecodeError),
            NetworkReply::Decoded(
                Some(RemoteResponse::RemoteDownloadDataResponse { file_chunk_with_proof }),
            ) => Ok::<Option<FileProof>, RequestError>(file_chunk_with_proof),
            NetworkReply::Decoded(_) => Err::<Option<FileProof>, RequestError>(RequestError::UnexpectedResponse),
        }),
{
    match reply {
        NetworkReply::Failed => Err(RequestError::RequestFailure),
        NetworkReply::Undecodable => Err(RequestError::DecodeError),
        NetworkReply::Decoded(Some(RemoteResponse::RemoteDownloadDataResponse { file_chunk_with_proof })) => Ok(
            file_chunk_with_proof,
        ),
        NetworkReply::Decoded(_) => Err(RequestError::UnexpectedResponse),
    }
}

} // verus!
