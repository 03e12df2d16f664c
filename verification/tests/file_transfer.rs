use sp_core::Blake2Hasher;
use sp_trie::{LayoutV1, TrieConfiguration};
use storage_hub::file_transfer::{
    download_response, handle_request, on_remote_download_data_request, on_remote_upload_data_request,
    reputation_change, upload_response, HandleRequestError, NetworkReply, RemoteRequest, RemoteResponse, RequestError,
    UploadRefusal, BAD_REQUEST_REPUTATION,
};
use storage_hub::in_memory::InMemoryFileStorage;
use storage_hub::traits::{FileStorageError, FileStorageWriteStatus};
use storage_hub::types::{FileProof, Leaf, Metadata, FILE_CHUNK_SIZE};

fn root_of(chunks: &[(u64, Vec<u8>)]) -> [u8; 32] {
    let pairs: Vec<(Vec<u8>, Vec<u8>)> = chunks.iter().map(|(id, data)| (id.to_be_bytes().to_vec(), data.clone())).collect();
    LayoutV1::<Blake2Hasher>::trie_root(pairs).0
}

fn metadata(size: u64, fingerprint: [u8; 32]) -> Metadata {
    Metadata { owner: String::from("alice"), location: b"test".to_vec(), size, fingerprint, peer_ids: Vec::new() }
}

fn chunks() -> Vec<(u64, Vec<u8>)> {
    vec![(0, vec![1u8; 1024]), (1, vec![2u8; 1024]), (2, vec![3u8; 7])]
}

/// A storage that holds the whole file under `key`.
fn source(key: [u8; 32]) -> InMemoryFileStorage {
    let mut storage = InMemoryFileStorage::new();
    storage.set_metadata(key, metadata(2 * FILE_CHUNK_SIZE + 7, root_of(&chunks())));
    for (id, data) in chunks() {
        storage.write_chunk(&key, &id, &data).unwrap();
    }
    storage
}

#[test]
fn a_file_is_handed_from_one_storage_to_another() {
    let key = [1u8; 32];
    let mut from = source(key);
    let mut to = InMemoryFileStorage::new();
    to.set_metadata(key, metadata(2 * FILE_CHUNK_SIZE + 7, root_of(&chunks())));
    for id in [2u64, 0, 1] {
        let reply = handle_request(&mut from, Some(RemoteRequest::RemoteDownloadDataRequest { file_key: key, file_chunk_id: id }));
        let proof = match reply {
            Ok(RemoteResponse::RemoteDownloadDataResponse { file_chunk_with_proof: Some(proof) }) => proof,
            other => panic!("no proof: {:?}", other),
        };
        let stored = handle_request(
            &mut to,
            Some(RemoteRequest::RemoteUploadDataRequest { file_key: key, file_chunk_with_proof: proof }),
        );
        assert_eq!(stored, Ok(RemoteResponse::RemoteUploadDataResponse { success: true }));
    }
    assert_eq!(to.stored_chunks_count(&key), Ok(3));
    assert_eq!(to.get_root(&key), from.get_root(&key));
    assert_eq!(to.get_chunk(&key, &2), Ok(vec![3u8; 7]));
    assert!(to.generate_proof(&key, &1).unwrap().verify());
}

#[test]
fn upload_reports_what_the_write_reports() {
    let key = [1u8; 32];
    let from = source(key);
    let mut to = InMemoryFileStorage::new();
    to.set_metadata(key, metadata(2 * FILE_CHUNK_SIZE + 7, root_of(&chunks())));
    let first = from.generate_proof(&key, &0).unwrap();
    let second = from.generate_proof(&key, &1).unwrap();
    let third = from.generate_proof(&key, &2).unwrap();
    assert_eq!(on_remote_upload_data_request(&mut to, &key, &first), Ok(FileStorageWriteStatus::FileIncomplete));
    assert_eq!(
        on_remote_upload_data_request(&mut to, &key, &first),
        Err(UploadRefusal::Storage(FileStorageError::FileChunkAlreadyExists))
    );
    assert_eq!(on_remote_upload_data_request(&mut to, &key, &second), Ok(FileStorageWriteStatus::FileIncomplete));
    assert_eq!(on_remote_upload_data_request(&mut to, &key, &third), Ok(FileStorageWriteStatus::FileComplete));
}

#[test]
fn upload_refusals() {
    let key = [1u8; 32];
    let from = source(key);
    let proof = from.generate_proof(&key, &0).unwrap();
    let mut to = InMemoryFileStorage::new();
    assert_eq!(on_remote_upload_data_request(&mut to, &key, &proof), Err(UploadRefusal::UnknownFile));
    to.set_metadata(key, metadata(2 * FILE_CHUNK_SIZE + 7, [9; 32]));
    assert_eq!(on_remote_upload_data_request(&mut to, &key, &proof), Err(UploadRefusal::WrongRoot));
    to.set_metadata(key, metadata(2 * FILE_CHUNK_SIZE + 7, root_of(&chunks())));
    let mut data = proof.proven.data.clone();
    data[5] ^= 1;
    let tampered = FileProof { proven: Leaf { key: 0, data }, proof: proof.proof.clone(), root: proof.root };
    assert_eq!(on_remote_upload_data_request(&mut to, &key, &tampered), Err(UploadRefusal::BadProof));
    let moved = FileProof {
        proven: Leaf { key: 1, data: proof.proven.data.clone() },
        proof: proof.proof.clone(),
        root: proof.root,
    };
    assert_eq!(on_remote_upload_data_request(&mut to, &key, &moved), Err(UploadRefusal::BadProof));
    assert_eq!(to.stored_chunks_count(&key), Ok(0));
    assert_eq!(
        handle_request(&mut to, Some(RemoteRequest::RemoteUploadDataRequest { file_key: key, file_chunk_with_proof: tampered })),
        Ok(RemoteResponse::RemoteUploadDataResponse { success: false })
    );
    assert_eq!(to.stored_chunks_count(&key), Ok(0));
}

#[test]
fn download_of_what_is_not_there() {
    let key = [1u8; 32];
    let mut storage = source(key);
    assert_eq!(
        on_remote_download_data_request(&storage, &key, 3),
        Err(FileStorageError::FileChunkDoesNotExist)
    );
    assert_eq!(on_remote_download_data_request(&storage, &[2; 32], 0), Err(FileStorageError::FileDoesNotExist));
    assert_eq!(
        handle_request(&mut storage, Some(RemoteRequest::RemoteDownloadDataRequest { file_key: key, file_chunk_id: 3 })),
        Ok(RemoteResponse::RemoteDownloadDataResponse { file_chunk_with_proof: None })
    );
    let proof = on_remote_download_data_request(&storage, &key, 1).unwrap();
    assert_eq!(proof.proven, Leaf { key: 1, data: vec![2u8; 1024] });
}

#[test]
fn a_request_without_data_is_a_bad_request() {
    let mut storage = InMemoryFileStorage::new();
    assert_eq!(handle_request(&mut storage, None), Err(HandleRequestError::BadRequest));
}

#[test]
fn only_a_bad_request_costs_reputation() {
    assert_eq!(BAD_REQUEST_REPUTATION, -(1 << 12));
    assert_eq!(reputation_change(HandleRequestError::BadRequest), Some(-4096));
    assert_eq!(reputation_change(HandleRequestError::DecodeProto), None);
    assert_eq!(reputation_change(HandleRequestError::EncodeProto), None);
    assert_eq!(reputation_change(HandleRequestError::SendResponse), None);
    assert_eq!(reputation_change(HandleRequestError::Codec), None);
}

#[test]
fn replies_to_an_upload_request() {
    assert_eq!(upload_response(NetworkReply::Failed), Err(RequestError::RequestFailure));
    assert_eq!(upload_response(NetworkReply::Undecodable), Err(RequestError::DecodeError));
    assert_eq!(upload_response(NetworkReply::Decoded(None)), Err(RequestError::UnexpectedResponse));
    assert_eq!(
        upload_response(NetworkReply::Decoded(Some(RemoteResponse::RemoteDownloadDataResponse {
            file_chunk_with_proof: None
        }))),
        Err(RequestError::UnexpectedResponse)
    );
    assert_eq!(
        upload_response(NetworkReply::Decoded(Some(RemoteResponse::RemoteUploadDataResponse { success: true }))),
        Ok(true)
    );
    assert_eq!(
        upload_response(NetworkReply::Decoded(Some(RemoteResponse::RemoteUploadDataResponse { success: false }))),
        Ok(false)
    );
}

#[test]
fn replies_to_a_download_request() {
    assert_eq!(download_response(NetworkReply::Failed), Err(RequestError::RequestFailure));
    assert_eq!(download_response(NetworkReply::Undecodable), Err(RequestError::DecodeError));
    assert_eq!(download_response(NetworkReply::Decoded(None)), Err(RequestError::UnexpectedResponse));
    assert_eq!(
        download_response(NetworkReply::Decoded(Some(RemoteResponse::RemoteUploadDataResponse { success: true }))),
        Err(RequestError::UnexpectedResponse)
    );
    let proof = FileProof { proven: Leaf { key: 0, data: vec![1] }, proof: vec![vec![2]], root: [3; 32] };
    assert_eq!(
        download_response(NetworkReply::Decoded(Some(RemoteResponse::RemoteDownloadDataResponse {
            file_chunk_with_proof: Some(proof.clone())
        }))),
        Ok(Some(proof))
    );
    assert_eq!(
        download_response(NetworkReply::Decoded(Some(RemoteResponse::RemoteDownloadDataResponse {
            file_chunk_with_proof: None
        }))),
        Ok(None)
    );
}

#[test]
fn only_an_upload_request_is_made_known() {
    let proof = FileProof { proven: Leaf { key: 0, data: vec![1] }, proof: vec![vec![2]], root: [3; 32] };
    let upload = Some(RemoteRequest::RemoteUploadDataRequest { file_key: [1; 32], file_chunk_with_proof: proof });
    assert_eq!(
        storage_hub::file_transfer::upload_event(&upload),
        Some(storage_hub::file_transfer::RemoteUploadRequest { location: String::new() })
    );
    let download = Some(RemoteRequest::RemoteDownloadDataRequest { file_key: [1; 32], file_chunk_id: 0 });
    assert_eq!(storage_hub::file_transfer::upload_event(&download), None);
    assert_eq!(storage_hub::file_transfer::upload_event(&None), None);
    assert_eq!(storage_hub::file_transfer::bad_request_reason(), "Remote request without request data.");
}
