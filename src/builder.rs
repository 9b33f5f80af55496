//! Configuration of a session: the dApp's metadata, the default chain, the relay
//! project and the fallback node, gathered by a builder.
use vstd::prelude::*;

use crate::session::{initial, Ethereum};

verus! {

/// What the dApp tells a remote wallet about itself.
#[derive(Clone, Debug, PartialEq, Eq)]
pub struct Metadata {
    pub name: String,
    pub description: String,
    pub url: String,
    pub icons: Vec<String>,
}

/// The characters of each string of a list.
pub open spec fn strings_view(v: Seq<String>) -> Seq<Seq<char>> {
    v.map_values(|s: String| s@)
}

/// Copies a list of strings.
pub fn copy_strings(v: &Vec<String>) -> (r: Vec<String>)
    ensures
        r@ == v@,
{
    let mut r: Vec<String> = Vec::new();
    let mut i: usize = 0;
    while i < v.len()
        invariant
            i <= v@.len(),
            r@ == v@.subrange(0, i as int),
        decreases v@.len() - i,
    {
        r.push(v[i].clone());
        i = i + 1;
        assert(r@ =~= v@.subrange(0, i as int));
    }
    assert(v@.subrange(0, v@.len() as int) =~= v@);
    r
}

/// Copies an optional string.
pub fn copy_opt_string(s: &Option<String>) -> (r: Option<String>)
    ensures
        r == *s,
{
    match s {
        Some(x) => Some(x.clone()),
        None => None,
    }
}

/// Gathers the configuration of an [`Ethereum`] session.
pub struct EthereumBuilder {
    pub chain_id: u64,
    pub name: String,
    pub description: String,
    pub url: String,
    pub wc_project_id: Option<String>,
    pub icons: Vec<String>,
    pub rpc_node: Option<String>,
}

impl EthereumBuilder {
    /// A configuration for chain 1, with sample metadata, no icons, no relay project
    /// and no fallback node.
    pub fn new() -> (r: Self)
        ensures
            r.chain_id == 1,
            r.name@ == "Example dApp"@,
            r.description@ == "An example dApp written in Rust"@,
            r.url@ == "https://github.com/quay-rs/ethers-web"@,
            r.wc_project_id is None,
            r.icons@.len() == 0,
            r.rpc_node is None,
    {
        EthereumBuilder {
            chain_id: 1,
            name: "Example dApp".to_string(),
            description: "An example dApp written in Rust".to_string(),
            url: "https://github.com/quay-rs/ethers-web".to_string(),
            wc_project_id: None,
            icons: Vec::new(),
            rpc_node: None,
        }
    }

    /// Sets the chain a session starts on.
    pub fn chain_id(&mut self, chain_id: u64) -> (r: &Self)
        ensures
            *final(self) == (EthereumBuilder { chain_id, ..*old(self) }),
            *r == *final(self),
    {
        self.chain_id = chain_id;
        self
    }

    /// Sets the dApp's name.
    pub fn name(&mut self, name: &str) -> (r: &Self)
        ensures
            final(self).name@ == name@,
            *final(self) == (EthereumBuilder { name: final(self).name, ..*old(self) }),
            *r == *final(self),
    {
        self.name = name.to_string();
        self
    }

    /// Sets the dApp's description.
    pub fn description(&mut self, description: &str) -> (r: &Self)
        ensures
            final(self).description@ == description@,
            *final(self) == (EthereumBuilder { description: final(self).description, ..*old(self) }),
            *r == *final(self),
    {
        self.description = description.to_string();
        self
    }

    /// Sets the dApp's URL.
    pub fn url(&mut self, url: &str) -> (r: &Self)
        ensures
            final(self).url@ == url@,
            *final(self) == (EthereumBuilder { url: final(self).url, ..*old(self) }),
            *r == *final(self),
    {
        self.url = url.to_string();
        self
    }

    /// Sets the WalletConnect project id, which makes WalletConnect available.
    pub fn walletconnect_id(&mut self, wc_project_id: &str) -> (r: &Self)
        ensures
            final(self).wc_project_id is Some,
            final(self).wc_project_id.unwrap()@ == wc_project_id@,
            *final(self) == (EthereumBuilder { wc_project_id: final(self).wc_project_id, ..*old(self) }),
            *r == *final(self),
    {
        self.wc_project_id = Some(wc_project_id.to_string());
        self
    }

    /// Sets the RPC node that serves, next to a WalletConnect session, the calls that
    /// need no signer.
    pub fn rpc_node(&mut self, rpc_node: &str) -> (r: &Self)
        ensures
            final(self).rpc_node is Some,
            final(self).rpc_node.unwrap()@ == rpc_node@,
            *final(self) == (EthereumBuilder { rpc_node: final(self).rpc_node, ..*old(self) }),
            *r == *final(self),
    {
        self.rpc_node = Some(rpc_node.to_string());
        self
    }

    /// Adds the URL of an icon of the dApp.
    pub fn add_icon(&mut self, icon_url: &str) -> (r: &Self)
        ensures
            strings_view(final(self).icons@) == strings_view(old(self).icons@).push(icon_url@),
            *final(self) == (EthereumBuilder { icons: final(self).icons, ..*old(self) }),
            *r == *final(self),
    {
        self.icons.push(icon_url.to_string());
        assert(strings_view(self.icons@) =~= strings_view(old(self).icons@).push(icon_url@));
        self
    }

    /// A fresh session with this configuration: no backend, no accounts, on the
    /// configured chain.
    pub fn build(&self) -> (r: Ethereum)
        ensures
            r@ == initial(self.chain_id),
            r.metadata.name == self.name,
            r.metadata.description == self.description,
            r.metadata.url == self.url,
            r.metadata.icons@ == self.icons@,
            r.wc_project_id == self.wc_project_id,
            r.rpc_node == self.rpc_node,
    {
        let metadata = Metadata {
            name: self.name.clone(),
            description: self.description.clone(),
            url: self.url.clone(),
            icons: copy_strings(&self.icons),
        };
        Ethereum::new(
            self.chain_id,
            metadata,
            copy_opt_string(&self.wc_project_id),
            copy_opt_string(&self.rpc_node),
        )
    }
}

} // verus!
