use dcdn::{ContentMetadata, DCDNContract, DCDNResponse, DcdnError, Operation};

const HELLO_DIGEST: &str = "d6f3061554e789c042013b0d4c64d48056f9504788a583463c5fbda01cb6abfe";

fn hello_metadata(owner: &str) -> ContentMetadata {
    ContentMetadata {
        name: "hello.txt".to_string(),
        size: 12,
        content_type: "text/plain".to_string(),
        owner: owner.to_string(),
        created_at: 1234567890,
        expires_at: None,
        content_hash: None,
    }
}

/// Tests content upload and download functionality
#[test]
fn test_content_flow() {
    let mut contract = DCDNContract::new();

    let content = b"Hello, dCDN!".to_vec();
    let metadata = hello_metadata("test_user");

    let resp = contract.execute_operation(
        Operation::Upload { content: content.clone(), metadata: metadata.clone() },
        1,
    );
    assert_eq!(resp, DCDNResponse::UploadSuccess { content_id: HELLO_DIGEST.to_string() });
    assert_eq!(contract.state.content_map.len(), 1);
    assert_eq!(contract.state.content_map[0].content, content);
}

#[test]
fn hello_upload_download_duplicate() {
    let mut contract = DCDNContract::new();
    let content = b"Hello, dCDN!".to_vec();
    let id = contract.upload_content(content.clone(), hello_metadata("u1"), 10).unwrap();
    assert_eq!(id, HELLO_DIGEST);
    assert_eq!(id.len(), 64);
    let record = &contract.state.content_map[0];
    assert_eq!(record.metadata.content_hash, Some(HELLO_DIGEST.to_string()));
    assert_eq!(record.created_at, 10);
    assert_eq!(record.last_accessed, 10);
    assert_eq!(record.access_count, 0);

    let bytes = contract.download_content(id.clone(), 20).unwrap();
    assert_eq!(bytes, content);
    assert_eq!(bytes.len(), 12);
    assert_eq!(contract.state.content_map[0].access_count, 1);
    assert_eq!(contract.state.content_map[0].last_accessed, 20);

    assert_eq!(
        contract.upload_content(content, hello_metadata("u1"), 30),
        Err(DcdnError::DuplicateContent)
    );
    assert_eq!(contract.state.content_map.len(), 1);
}

#[test]
fn upload_twice_is_refused_without_second_record() {
    let mut contract = DCDNContract::new();
    let bytes = vec![1u8, 2, 3];
    let first = contract.upload_content(bytes.clone(), hello_metadata("a"), 1);
    assert!(first.is_ok());
    let second = contract.upload_content(bytes, hello_metadata("b"), 2);
    assert_eq!(second, Err(DcdnError::DuplicateContent));
    assert_eq!(contract.state.content_map.len(), 1);
    assert_eq!(contract.state.content_map[0].metadata.owner, "a");
}

#[test]
fn empty_content_is_addressed_by_its_digest() {
    let mut contract = DCDNContract::new();
    let id = contract.upload_content(Vec::new(), hello_metadata("u"), 0).unwrap();
    assert_eq!(id, "e3b0c44298fc1c149afbf4c8996fb92427ae41e4649b934ca495991b7852b855");
}

#[test]
fn upload_with_given_id() {
    let mut contract = DCDNContract::new();
    let r = contract.upload_content_with_id(vec![9], hello_metadata("u"), "abc".to_string(), 5);
    assert_eq!(r, Ok("abc".to_string()));
    let r = contract.upload_content_with_id(vec![8], hello_metadata("u"), "abc".to_string(), 6);
    assert_eq!(r, Err(DcdnError::DuplicateContent));
}

#[test]
fn download_missing_content() {
    let mut contract = DCDNContract::new();
    assert_eq!(contract.download_content("nope".to_string(), 1), Err(DcdnError::ContentNotFound));
    let resp = contract.execute_operation(Operation::Download { content_id: "nope".to_string() }, 1);
    assert_eq!(resp, DCDNResponse::Error { message: "Content not found".to_string() });
}

#[test]
fn download_counts_each_access() {
    let mut contract = DCDNContract::new();
    let id = contract.upload_content(vec![5, 6], hello_metadata("u"), 1).unwrap();
    for t in 2..5u64 {
        let b = contract.download_content(id.clone(), t).unwrap();
        assert_eq!(b, vec![5, 6]);
    }
    assert_eq!(contract.state.content_map[0].access_count, 3);
    assert_eq!(contract.state.content_map[0].last_accessed, 4);
    assert_eq!(contract.state.content_map[0].created_at, 1);
}

#[test]
fn update_metadata_replaces_it() {
    let mut contract = DCDNContract::new();
    let id = contract.upload_content(vec![1], hello_metadata("u"), 1).unwrap();
    let mut m = hello_metadata("v");
    m.name = "other.txt".to_string();
    assert_eq!(contract.update_metadata(id.clone(), m.clone()), Ok(()));
    assert_eq!(contract.state.content_map[0].metadata, m);
    assert_eq!(contract.state.content_map[0].content, vec![1]);
    assert_eq!(
        contract.update_metadata("missing".to_string(), m),
        Err(DcdnError::ContentNotFound)
    );
}

#[test]
fn register_node_and_duplicate() {
    let mut contract = DCDNContract::new();
    assert_eq!(contract.register_node("n1".to_string(), "eu".to_string(), 100, 7), Ok(()));
    let n = &contract.state.nodes[0];
    assert_eq!(n.used_capacity, 0);
    assert!(n.available);
    assert_eq!(n.data_served, 0);
    assert_eq!(n.created_at, 7);
    assert_eq!(
        contract.register_node("n1".to_string(), "us".to_string(), 50, 8),
        Err(DcdnError::NodeAlreadyRegistered)
    );
    assert_eq!(contract.state.node_count, 1);
    assert_eq!(contract.state.total_capacity, 100);
}

#[test]
fn report_usage_for_unregistered_node() {
    let mut contract = DCDNContract::new();
    let id = contract.upload_content(vec![1], hello_metadata("u"), 1).unwrap();
    contract.register_node("n1".to_string(), "eu".to_string(), 100, 1).unwrap();
    assert_eq!(
        contract.report_usage("ghost".to_string(), id, 10),
        Err(DcdnError::NodeNotFound)
    );
    assert_eq!(contract.state.node_count, 1);
    assert_eq!(contract.state.total_capacity, 100);
    assert_eq!(contract.state.total_data_served, 0);
    assert_eq!(contract.state.nodes[0].data_served, 0);
}

#[test]
fn report_usage_for_missing_content() {
    let mut contract = DCDNContract::new();
    contract.register_node("n1".to_string(), "eu".to_string(), 100, 1).unwrap();
    assert_eq!(
        contract.report_usage("n1".to_string(), "none".to_string(), 10),
        Err(DcdnError::ContentNotFound)
    );
    assert_eq!(contract.state.total_data_served, 0);
}

#[test]
fn usage_is_clamped_to_capacity() {
    let mut contract = DCDNContract::new();
    let id = contract.upload_content(vec![1], hello_metadata("u"), 1).unwrap();
    contract.register_node("n1".to_string(), "eu".to_string(), 100, 1).unwrap();
    contract.report_usage("n1".to_string(), id.clone(), 30).unwrap();
    assert_eq!(contract.state.nodes[0].used_capacity, 30);
    contract.report_usage("n1".to_string(), id.clone(), 60).unwrap();
    assert_eq!(contract.state.nodes[0].used_capacity, 90);
    contract.report_usage("n1".to_string(), id, 25).unwrap();
    assert_eq!(contract.state.nodes[0].used_capacity, 100);
    assert_eq!(contract.state.nodes[0].data_served, 115);
    assert_eq!(contract.state.total_data_served, 115);
}

#[test]
fn aggregates_follow_nodes() {
    let mut contract = DCDNContract::new();
    let id = contract.upload_content(vec![1], hello_metadata("u"), 1).unwrap();
    contract.register_node("a".to_string(), "eu".to_string(), 100, 1).unwrap();
    contract.register_node("b".to_string(), "us".to_string(), 250, 1).unwrap();
    contract.report_usage("a".to_string(), id.clone(), 40).unwrap();
    contract.report_usage("b".to_string(), id.clone(), 500).unwrap();
    let _ = contract.report_usage("c".to_string(), id, 7);
    assert_eq!(contract.state.node_count, 2);
    assert_eq!(contract.state.total_capacity, 350);
    assert_eq!(contract.state.total_data_served, 540);
    assert_eq!(contract.state.nodes[1].used_capacity, 250);
}

#[test]
fn request_cache_twice_records_once() {
    let mut contract = DCDNContract::new();
    let id = contract.upload_content(vec![1], hello_metadata("u"), 1).unwrap();
    contract.register_node("n1".to_string(), "eu".to_string(), 100, 1).unwrap();
    assert_eq!(contract.request_cache(id.clone(), "n1".to_string()), Ok(()));
    assert_eq!(contract.request_cache(id.clone(), "n1".to_string()), Ok(()));
    assert_eq!(contract.state.content_availability.len(), 1);
    assert_eq!(contract.state.content_availability[0].node_ids, vec!["n1".to_string()]);
}

#[test]
fn request_cache_checks_both_ids() {
    let mut contract = DCDNContract::new();
    let id = contract.upload_content(vec![1], hello_metadata("u"), 1).unwrap();
    assert_eq!(
        contract.request_cache("none".to_string(), "n1".to_string()),
        Err(DcdnError::ContentNotFound)
    );
    assert_eq!(contract.request_cache(id, "n1".to_string()), Err(DcdnError::NodeNotFound));
    assert!(contract.state.content_availability.is_empty());
}

#[test]
fn update_availability_adds_and_removes() {
    let mut contract = DCDNContract::new();
    contract.update_availability("c".to_string(), "n1".to_string(), false);
    assert!(contract.state.content_availability.is_empty());
    contract.update_availability("c".to_string(), "n1".to_string(), true);
    contract.update_availability("c".to_string(), "n2".to_string(), true);
    contract.update_availability("c".to_string(), "n1".to_string(), true);
    assert_eq!(
        contract.state.content_availability[0].node_ids,
        vec!["n1".to_string(), "n2".to_string()]
    );
    contract.update_availability("c".to_string(), "n1".to_string(), false);
    assert_eq!(contract.state.content_availability[0].node_ids, vec!["n2".to_string()]);
    contract.update_availability("c".to_string(), "n2".to_string(), false);
    assert_eq!(contract.state.content_availability.len(), 1);
    assert!(contract.state.content_availability[0].node_ids.is_empty());
}

#[test]
fn dispatcher_answers_each_operation() {
    let mut c = DCDNContract::new();
    let up = c.execute_operation(
        Operation::Upload { content: vec![4, 2], metadata: hello_metadata("u") },
        1,
    );
    let id = match up {
        DCDNResponse::UploadSuccess { content_id } => content_id,
        other => panic!("unexpected {:?}", other),
    };
    assert_eq!(
        c.execute_operation(
            Operation::RegisterNode {
                node_id: "n".to_string(),
                location: "eu".to_string(),
                capacity: 10
            },
            2
        ),
        DCDNResponse::NodeRegistered
    );
    assert_eq!(
        c.execute_operation(
            Operation::RegisterNode {
                node_id: "n".to_string(),
                location: "eu".to_string(),
                capacity: 10
            },
            2
        ),
        DCDNResponse::Error { message: "Node already registered".to_string() }
    );
    assert_eq!(
        c.execute_operation(
            Operation::RequestCache { content_id: id.clone(), node_id: "n".to_string() },
            3
        ),
        DCDNResponse::CacheRequestAccepted
    );
    assert_eq!(
        c.execute_operation(
            Operation::RequestCache { content_id: id.clone(), node_id: "x".to_string() },
            3
        ),
        DCDNResponse::Error { message: "Node does not exist".to_string() }
    );
    assert_eq!(
        c.execute_operation(
            Operation::UpdateAvailability {
                content_id: id.clone(),
                node_id: "n".to_string(),
                available: false
            },
            4
        ),
        DCDNResponse::CacheRequestAccepted
    );
    assert_eq!(
        c.execute_operation(Operation::Download { content_id: id.clone() }, 5),
        DCDNResponse::DownloadSuccess { content: vec![4, 2] }
    );
    assert_eq!(
        c.execute_operation(
            Operation::ReportUsage {
                node_id: "n".to_string(),
                content_id: id.clone(),
                bytes_served: 2
            },
            6
        ),
        DCDNResponse::UsageReported
    );
    assert_eq!(
        c.execute_operation(
            Operation::UpdateMetadata { content_id: id.clone(), metadata: hello_metadata("w") },
            7
        ),
        DCDNResponse::MetadataUpdated
    );
    assert_eq!(
        c.execute_operation(
            Operation::Upload { content: vec![4, 2], metadata: hello_metadata("u") },
            8
        ),
        DCDNResponse::Error { message: "Content with this hash already exists".to_string() }
    );
}

#[test]
fn error_messages() {
    assert_eq!(DcdnError::DuplicateContent.message(), "Content with this hash already exists");
    assert_eq!(DcdnError::ContentNotFound.message(), "Content not found");
    assert_eq!(DcdnError::NodeNotFound.message(), "Node does not exist");
    assert_eq!(DcdnError::NodeAlreadyRegistered.message(), "Node already registered");
}

#[test]
fn limits_are_checked() {
    let mut c = DCDNContract::new();
    c.register_node("n".to_string(), "eu".to_string(), u64::MAX - 5, 1).unwrap();
    let ok = Operation::RegisterNode { node_id: "m".to_string(), location: "x".to_string(), capacity: 5 };
    let too_big =
        Operation::RegisterNode { node_id: "m".to_string(), location: "x".to_string(), capacity: 6 };
    assert!(c.within_limits(&ok));
    assert!(!c.within_limits(&too_big));
    let dl = Operation::Download { content_id: "none".to_string() };
    assert!(c.within_limits(&dl));
}
