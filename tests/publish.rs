use access_control::publish::{
    publish_collab_url, publish_namespace_url, published_collab_blob_url, published_collab_url,
};

#[test]
fn publish_urls() {
    assert_eq!(
        publish_namespace_url("http://h", "w1"),
        "http://h/api/workspace/w1/publish-namespace"
    );
    assert_eq!(
        publish_collab_url("http://h", "w1", "doc"),
        "http://h/api/workspace/w1/publish/doc"
    );
    assert_eq!(
        published_collab_url("http://h", "ns", "doc"),
        "http://h/api/workspace/published/ns/doc"
    );
    assert_eq!(
        published_collab_blob_url("http://h", "ns", "doc"),
        "http://h/api/workspace/published/ns/doc/blob"
    );
}
