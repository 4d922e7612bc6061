use dcdn::{DCDNContract, DCDNService, ContentMetadata};

fn meta() -> ContentMetadata {
    ContentMetadata {
        name: "a.bin".to_string(),
        size: 3,
        content_type: "application/octet-stream".to_string(),
        owner: "o".to_string(),
        created_at: 0,
        expires_at: Some(99),
        content_hash: None,
    }
}

#[test]
fn queries_read_the_state() {
    let mut c = DCDNContract::new();
    let id = c.upload_content(vec![1, 2, 3], meta(), 1).unwrap();
    c.register_node("n1".to_string(), "eu".to_string(), 64, 2).unwrap();
    c.request_cache(id.clone(), "n1".to_string()).unwrap();
    c.report_usage("n1".to_string(), id.clone(), 16).unwrap();
    let s = DCDNService::new(c.state);
    assert!(s.content_exists(&id));
    assert!(!s.content_exists(&"zz".to_string()));
    assert_eq!(s.get_node_count(), 1);
    assert_eq!(s.get_total_capacity(), 64);
    assert_eq!(s.get_total_data_served(), 16);
    let n = s.get_node(&"n1".to_string()).unwrap();
    assert_eq!(n.location, "eu");
    assert_eq!(n.used_capacity, 16);
    assert!(s.get_node(&"n2".to_string()).is_none());
    let m = s.get_content_metadata(&id).unwrap();
    assert_eq!(m.content_hash, Some(id.clone()));
    assert_eq!(m.expires_at, Some(99));
    assert_eq!(s.get_content(&id).unwrap().content, vec![1, 2, 3]);
    assert_eq!(s.get_content_nodes(&id), vec!["n1".to_string()]);
    assert!(s.get_content_nodes(&"zz".to_string()).is_empty());
}
