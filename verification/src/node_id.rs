//! The node identity endpoint: the node's public identity as text.

use vstd::prelude::*;

use crate::identity::PublicIdentity;
use crate::text::hex_lower;
use crate::upload::{upload_outcome, Ingestion, ResponseView, UploadError};

verus! {

/// The answer to a request for the node's identity.
#[derive(Debug, PartialEq, Eq)]
pub struct NodeIdResponse {
    pub node_id: String,
}

/// The node's identity for the client: its bytes in lowercase hexadecimal.
/// A plain read, which cannot fail.
pub fn get_node_id(identity: &PublicIdentity) -> (response: NodeIdResponse)
    ensures
        response.node_id@ == hex_lower(identity@),
{
    NodeIdResponse { node_id: identity.to_text() }
}

/// Every answer to an upload names the node as the identity endpoint does.
pub proof fn upload_names_the_node(identity: Seq<u8>, ingestion: Ingestion, response: ResponseView)
    requires
        upload_outcome(identity, ingestion) == Ok::<ResponseView, UploadError>(response),
    ensures
        response.node_id == hex_lower(identity),
{
}

} // verus!
