//! What has to hold before a mesh runs.

use vstd::prelude::*;

use crate::config::V2PeerConfig;
use crate::identity::EndpointId;
use crate::peers::{merge_peers, merged_peers};

verus! {

/// Why a mesh does not start.
#[derive(Clone, Copy, Debug, PartialEq, Eq, Structural)]
pub enum MeshStartErrorV2 {
    /// The peer list names the local node.
    LocalPeer,
    /// No adjacency came up.
    NoAdjacency,
}

/// Whether a peer list names the local node.
pub open spec fn names_local(peers: Seq<V2PeerConfig>, local: EndpointId) -> bool {
    exists|i: int| 0 <= i < peers.len() && (#[trigger] peers[i]).endpoint_id@ == local@
}

/// A node is no peer of itself.
pub fn check_mesh_peers(peers: &Vec<V2PeerConfig>, local: &EndpointId) -> (r: Result<
    (),
    MeshStartErrorV2,
>)
    ensures
        r is Err == names_local(peers@, *local),
        r matches Err(error) ==> error == MeshStartErrorV2::LocalPeer,
{
    let mut index: usize = 0;
    while index < peers.len()
        invariant
            index <= peers@.len(),
            forall|i: int| 0 <= i < index ==> (#[trigger] peers@[i]).endpoint_id@ != local@,
        decreases peers@.len() - index,
    {
        if peers[index].endpoint_id.same(local) {
            return Err(MeshStartErrorV2::LocalPeer);
        }
        index = index + 1;
    }
    Ok(())
}

/// A mesh without an adjacency has nothing to do.
pub fn check_adjacencies(adjacencies: usize) -> (r: Result<(), MeshStartErrorV2>)
    ensures
        r == (if adjacencies == 0 {
            Err(MeshStartErrorV2::NoAdjacency)
        } else {
            Ok(())
        }),
{
    if adjacencies == 0 {
        Err(MeshStartErrorV2::NoAdjacency)
    } else {
        Ok(())
    }
}

/// How many members a mesh may learn of: the configured peers, the entries of
/// each merged, and the node itself.
pub fn mesh_member_limit(peers: &Vec<V2PeerConfig>) -> (r: usize)
    ensures
        r == crate::num::sat_usize(merged_peers(peers@).len() as int + 1),
{
    merge_peers(peers).len().saturating_add(1)
}

} // verus!
