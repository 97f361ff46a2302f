use vstd::prelude::*;

use crate::binder::{BindStage, SocketBinder};
use crate::derive::{
    derive_source_addr, derived_source, digest_head, hash_input_of, lemma_source_in_prefix,
    sha256_of, ClientAddr,
};
use crate::prefix::{valid_prefix, Ipv6Net};

verus! {

/// Why a request could not be given an outbound peer.
#[derive(Debug, Clone, Copy, PartialEq, Eq, Structural)]
pub enum GatewayError {
    /// No IP address is known for the client.
    ClientAddressUnavailable,
}

/// How to make the one outbound connection of one request.
#[derive(Debug, Clone)]
pub struct PeerPlan {
    pub target_host: String,
    pub target_port: u16,
    pub use_tls: bool,
    pub tls_verify_name: String,
    /// The address the outbound socket is bound to.
    pub source_addr: u128,
    /// The hook that binds the fresh socket to `source_addr`.
    pub hook: SocketBinder,
    /// Idle time after which a connection is dropped; zero, so that no
    /// connection is ever kept for a second request.
    pub idle_timeout_ms: u64,
}

/// The configuration shared by every request: the source prefix and the one
/// upstream target.
#[derive(Debug, Clone)]
pub struct SnatGateway {
    pub src_prefix: Ipv6Net,
    pub target_name: String,
    pub target_port: u16,
    pub target_tls: bool,
}

impl SnatGateway {
    pub fn new(src_prefix: Ipv6Net, target_name: String, target_port: u16, target_tls: bool) -> (r:
        SnatGateway)
        ensures
            r.src_prefix == src_prefix,
            r.target_name@ == target_name@,
            r.target_port == target_port,
            r.target_tls == target_tls,
    {
        SnatGateway { src_prefix, target_name, target_port, target_tls }
    }

    /// The outbound peer for a request from `client`: the configured target,
    /// reached from the source address derived for the client, through a
    /// fresh socket that is never reused. Fails when the client has no IP
    /// address.
    pub fn upstream_peer(&self, client: Option<ClientAddr>) -> (r: Result<PeerPlan, GatewayError>)
        ensures
            client is None <==> r == Err::<PeerPlan, GatewayError>(
                GatewayError::ClientAddressUnavailable,
            ),
            client matches Some(c) ==> r matches Ok(p) && plan_for(*self, c, p),
    {
        let c = match client {
            Some(c) => c,
            None => {
                return Err(GatewayError::ClientAddressUnavailable);
            },
        };
        let source_addr = derive_source_addr(&c, &self.src_prefix);
        Ok(PeerPlan {
            target_host: self.target_name.clone(),
            target_port: self.target_port,
            use_tls: self.target_tls,
            tls_verify_name: self.target_name.clone(),
            source_addr,
            hook: SocketBinder::new(source_addr),
            idle_timeout_ms: 0,
        })
    }
}

/// `p` is the outbound peer of a request from `c` through `g`.
pub open spec fn plan_for(g: SnatGateway, c: ClientAddr, p: PeerPlan) -> bool {
    &&& p.target_host@ == g.target_name@
    &&& p.target_port == g.target_port
    &&& p.use_tls == g.target_tls
    &&& p.tls_verify_name@ == g.target_name@
    &&& p.source_addr == derived_source(c, g.src_prefix)
    &&& p.hook.source == p.source_addr
    &&& p.hook.stage == BindStage::Fresh
    &&& p.idle_timeout_ms == 0
}

/// Two requests from the same client address each get a peer of their own
/// with a zero idle timeout and a hook on a fresh socket, both bound to the
/// same source address inside the prefix: no connection is kept for the
/// second request, and none is needed to keep the source stable.
pub proof fn lemma_requests_not_pooled(
    g: SnatGateway,
    c1: ClientAddr,
    c2: ClientAddr,
    p1: PeerPlan,
    p2: PeerPlan,
)
    requires
        c1.ip == c2.ip,
        plan_for(g, c1, p1),
        plan_for(g, c2, p2),
        valid_prefix(g.src_prefix.network(), g.src_prefix.len()),
    ensures
        p1.idle_timeout_ms == 0 && p2.idle_timeout_ms == 0,
        p1.hook.stage == BindStage::Fresh && p2.hook.stage == BindStage::Fresh,
        p1.source_addr == p2.source_addr,
        p1.source_addr & g.src_prefix.mask() == g.src_prefix.network(),
{
    let n = g.src_prefix;
    lemma_source_in_prefix(n.network(), n.len(), digest_head(sha256_of(hash_input_of(c1.ip))));
}

} // verus!
