//! Per-run configuration values the verified pipeline reads.

use vstd::prelude::*;

verus! {

/// The kind of relay backend an endpoint speaks.
#[derive(Clone, Copy, PartialEq, Eq, Structural, Debug)]
pub enum RpcType {
    /// Direct node submission over the standard RPC protocol.
    SolanaRpc,
    /// Bundle relay taking raw transaction bytes and answering a bundle id.
    Jito,
    /// HTTP relay taking a JSON body with base64 bytes, bearer-style auth.
    Bloxroute,
    /// HTTP relay taking a JSON body with base64 bytes, bearer-style auth.
    NextBlock,
}

/// One configured relay endpoint.
#[derive(Debug)]
pub struct RpcConfig {
    pub url: String,
    pub auth: Option<String>,
    pub rpc_type: RpcType,
}

/// Mathematical model of an [`RpcConfig`].
#[verifier::ext_equal]
pub struct RpcConfigModel {
    pub url: Seq<char>,
    pub auth: Option<Seq<char>>,
    pub rpc_type: RpcType,
}

impl View for RpcConfig {
    type V = RpcConfigModel;

    open spec fn view(&self) -> RpcConfigModel {
        RpcConfigModel { url: self.url@, auth: self.auth.deep_view(), rpc_type: self.rpc_type }
    }
}

impl DeepView for RpcConfig {
    type V = RpcConfigModel;

    open spec fn deep_view(&self) -> RpcConfigModel {
        self.view()
    }
}

impl RpcConfig {
    /// A copy with the same model.
    pub fn duplicate(&self) -> (r: RpcConfig)
        ensures
            r@ == self@,
    {
        let auth = match &self.auth {
            Some(s) => Some(s.clone()),
            None => None,
        };
        let r = RpcConfig { url: self.url.clone(), auth, rpc_type: self.rpc_type };
        proof {
            assert(r@ =~= self@);
        }
        r
    }
}

} // verus!
