//! The addresses of the publishing service's endpoints.
use vstd::prelude::*;

verus! {

pub open spec fn spec_publish_namespace_url(base: Seq<char>, workspace_id: Seq<char>) -> Seq<char> {
    base + "/api/workspace/"@ + workspace_id + "/publish-namespace"@
}

pub open spec fn spec_publish_collab_url(
    base: Seq<char>,
    workspace_id: Seq<char>,
    doc_name: Seq<char>,
) -> Seq<char> {
    base + "/api/workspace/"@ + workspace_id + "/publish/"@ + doc_name
}

pub open spec fn spec_published_collab_url(
    base: Seq<char>,
    namespace: Seq<char>,
    doc_name: Seq<char>,
) -> Seq<char> {
    base + "/api/workspace/published/"@ + namespace + "/"@ + doc_name
}

pub open spec fn spec_published_collab_blob_url(
    base: Seq<char>,
    namespace: Seq<char>,
    doc_name: Seq<char>,
) -> Seq<char> {
    spec_published_collab_url(base, namespace, doc_name) + "/blob"@
}

/// Where a workspace's publish namespace is read and set.
pub fn publish_namespace_url(base: &str, workspace_id: &str) -> (r: String)
    ensures
        r@ == spec_publish_namespace_url(base@, workspace_id@),
{
    let s = String::from_str(base);
    let s = s.concat("/api/workspace/");
    let s = s.concat(workspace_id);
    s.concat("/publish-namespace")
}

/// Where a document of a workspace is published.
pub fn publish_collab_url(base: &str, workspace_id: &str, doc_name: &str) -> (r: String)
    ensures
        r@ == spec_publish_collab_url(base@, workspace_id@, doc_name@),
{
    let s = String::from_str(base);
    let s = s.concat("/api/workspace/");
    let s = s.concat(workspace_id);
    let s = s.concat("/publish/");
    s.concat(doc_name)
}

/// Where a published document's metadata is read.
pub fn published_collab_url(base: &str, namespace: &str, doc_name: &str) -> (r: String)
    ensures
        r@ == spec_published_collab_url(base@, namespace@, doc_name@),
{
    let s = String::from_str(base);
    let s = s.concat("/api/workspace/published/");
    let s = s.concat(namespace);
    let s = s.concat("/");
    s.concat(doc_name)
}

/// Where a published document's content is read.
pub fn published_collab_blob_url(base: &str, namespace: &str, doc_name: &str) -> (r: String)
    ensures
        r@ == spec_published_collab_blob_url(base@, namespace@, doc_name@),
{
    let s = published_collab_url(base, namespace, doc_name);
    s.concat("/blob")
}

} // verus!
