//! The WalletConnect wallet directory: its listing of wallets, and the description of
//! each wallet that can be offered to the user.
use vstd::prelude::*;
use vstd::string::StringExecFns;

use crate::error::EthereumError;
use crate::numeral::{has_prefix, numeral, parse_numeral, starts_with};
use crate::session::Ethereum;

verus! {

/// A page of the directory: each listed wallet under its directory key.
pub struct ExplorerResponse {
    pub listings: Vec<(String, WalletData)>,
    pub count: u32,
    pub total: u32,
}

/// One wallet as the directory lists it.
pub struct WalletData {
    pub id: String,
    pub name: String,
    /// CAIP-2 chain ids such as `eip155:1`.
    pub chains: Vec<String>,
    pub image_id: String,
    pub mobile: Option<LinkSet>,
    pub desktop: Option<LinkSet>,
    pub metadata: WalletMetadata,
}

/// Why a listed wallet cannot be offered.
#[derive(Debug, PartialEq, Eq)]
pub enum ExplorerError {
    /// It has no native link, neither on mobile nor on desktop.
    BadWallet,
}

/// The links that open a wallet.
pub struct LinkSet {
    pub native: Option<String>,
    pub universal: Option<String>,
}

pub struct WalletMetadata {
    pub short_name: Option<String>,
}

/// The sizes of a wallet's logo.
#[derive(Clone, Copy, Debug, PartialEq, Eq)]
pub enum ImageSize {
    Small,
    Medium,
    Large,
}

/// A wallet that can be offered: it has a native link on mobile or on desktop.
#[derive(Clone, Debug, PartialEq)]
pub struct WalletDescription {
    pub id: String,
    pub short_name: String,
    pub name: String,
    /// The EIP-155 chains the wallet supports.
    pub chains: Vec<u64>,
    pub image_id: String,
    pub project_id: String,
    pub desktop_schema: Option<String>,
    pub mobile_schema: Option<String>,
}

/// The native link of a link set, if it has a non-empty one.
pub open spec fn native_schema(links: Option<LinkSet>) -> Option<String> {
    match links {
        Some(l) => match l.native {
            Some(u) => if u@.len() > 0 {
                Some(u)
            } else {
                None
            },
            None => None,
        },
        None => None,
    }
}

/// The EIP-155 chain that a CAIP-2 chain id names, if it names one.
pub open spec fn chain_of(c: Seq<char>) -> Option<u64> {
    if has_prefix(c, "eip155:"@) {
        numeral(c.skip(7), 10)
    } else {
        None
    }
}

/// The EIP-155 chains among `cs`, in order.
pub open spec fn chain_ids(cs: Seq<String>) -> Seq<u64>
    decreases cs.len(),
{
    if cs.len() == 0 {
        Seq::empty()
    } else {
        let rest = chain_ids(cs.drop_last());
        match chain_of(cs.last()@) {
            Some(n) => rest.push(n),
            None => rest,
        }
    }
}

/// Whether the directory entry can be offered.
pub open spec fn offerable(w: WalletData) -> bool {
    native_schema(w.mobile) is Some || native_schema(w.desktop) is Some
}

/// `d` describes `w`, for the project `project_id`.
pub open spec fn describes(w: WalletData, project_id: Seq<char>, d: WalletDescription) -> bool {
    &&& d.id == w.id
    &&& d.short_name == match w.metadata.short_name {
        Some(s) => s,
        None => w.name,
    }
    &&& d.name == w.name
    &&& d.chains@ == chain_ids(w.chains@)
    &&& d.image_id == w.image_id
    &&& d.project_id@ == project_id
    &&& d.desktop_schema == native_schema(w.desktop)
    &&& d.mobile_schema == native_schema(w.mobile)
}

/// The offerable wallets of a listing, in order.
pub open spec fn offerable_wallets(ls: Seq<(String, WalletData)>) -> Seq<WalletData>
    decreases ls.len(),
{
    if ls.len() == 0 {
        Seq::empty()
    } else {
        let rest = offerable_wallets(ls.drop_last());
        if offerable(ls.last().1) {
            rest.push(ls.last().1)
        } else {
            rest
        }
    }
}

/// The mark of a logo size in the directory's URLs.
pub open spec fn size_mark(size: ImageSize) -> Seq<char> {
    match size {
        ImageSize::Small => "sm"@,
        ImageSize::Medium => "md"@,
        ImageSize::Large => "lg"@,
    }
}

/// The native link of a link set, if it has a non-empty one.
fn native_link(links: &Option<LinkSet>) -> (r: Option<String>)
    ensures
        r == native_schema(*links),
{
    match links {
        Some(l) => match &l.native {
            Some(u) => if u.unicode_len() > 0 {
                Some(u.clone())
            } else {
                None
            },
            None => None,
        },
        None => None,
    }
}

/// The EIP-155 chains among `chains`, in order.
fn parse_chains(chains: &Vec<String>) -> (r: Vec<u64>)
    ensures
        r@ == chain_ids(chains@),
{
    let mut r: Vec<u64> = Vec::new();
    let mut i: usize = 0;
    while i < chains.len()
        invariant
            i <= chains@.len(),
            r@ == chain_ids(chains@.subrange(0, i as int)),
        decreases chains@.len() - i,
    {
        proof {
            reveal_strlit("eip155:");
        }
        let c = chains[i].as_str();
        assert(chains@.subrange(0, i as int + 1).drop_last() =~= chains@.subrange(0, i as int));
        if starts_with(c, "eip155:") {
            match parse_numeral(c, 7, 10) {
                Some(n) => r.push(n),
                None => {},
            }
        }
        i = i + 1;
    }
    assert(chains@.subrange(0, chains@.len() as int) =~= chains@);
    r
}

impl WalletData {
    /// The description of this wallet, with an empty project id; fails with
    /// `BadWallet` when it has no native link.
    pub fn to_description(&self) -> (r: Result<WalletDescription, ExplorerError>)
        ensures
            offerable(*self) ==> r is Ok && describes(*self, Seq::empty(), r->Ok_0),
            !offerable(*self) ==> r == Err::<WalletDescription, ExplorerError>(ExplorerError::BadWallet),
    {
        let mobile_schema = native_link(&self.mobile);
        let desktop_schema = native_link(&self.desktop);
        if mobile_schema.is_none() && desktop_schema.is_none() {
            return Err(ExplorerError::BadWallet);
        }
        let short_name = match &self.metadata.short_name {
            Some(s) => s.clone(),
            None => self.name.clone(),
        };
        let project_id = String::new();
        Ok(WalletDescription {
            id: self.id.clone(),
            short_name,
            name: self.name.clone(),
            chains: parse_chains(&self.chains),
            image_id: self.image_id.clone(),
            project_id,
            desktop_schema,
            mobile_schema,
        })
    }
}

impl ExplorerResponse {
    /// The offerable wallets of the listing, in order, each for `project_id`.
    pub fn parse_wallets(&self, project_id: &str) -> (r: Vec<WalletDescription>)
        ensures
            r@.len() == offerable_wallets(self.listings@).len(),
            forall|i: int|
                0 <= i < r@.len() ==> describes(
                    #[trigger] offerable_wallets(self.listings@)[i],
                    project_id@,
                    r@[i],
                ),
    {
        let mut wallets: Vec<WalletDescription> = Vec::new();
        let mut i: usize = 0;
        while i < self.listings.len()
            invariant
                i <= self.listings@.len(),
                wallets@.len() == offerable_wallets(self.listings@.subrange(0, i as int)).len(),
                forall|k: int|
                    0 <= k < wallets@.len() ==> describes(
                        #[trigger] offerable_wallets(self.listings@.subrange(0, i as int))[k],
                        project_id@,
                        wallets@[k],
                    ),
            decreases self.listings@.len() - i,
        {
            let ghost before = self.listings@.subrange(0, i as int);
            let ghost after = self.listings@.subrange(0, i as int + 1);
            assert(after.drop_last() =~= before);
            let wallet = &self.listings[i].1;
            match wallet.to_description() {
                Ok(description) => {
                    let mut w = description;
                    w.project_id = project_id.to_string();
                    wallets.push(w);
                },
                Err(_) => {},
            }
            i = i + 1;
        }
        assert(self.listings@.subrange(0, self.listings@.len() as int) =~= self.listings@);
        wallets
    }
}

impl WalletDescription {
    /// The URL of the wallet's logo in the given size.
    pub fn get_image(&self, size: ImageSize) -> (r: String)
        ensures
            r@ == "https://explorer-api.walletconnect.com/v3/logo/"@ + size_mark(size) + "/"@
                + self.image_id@ + "?projectId="@ + self.project_id@,
    {
        let size_mark = match size {
            ImageSize::Small => "sm",
            ImageSize::Medium => "md",
            ImageSize::Large => "lg",
        };
        let mut url = "https://explorer-api.walletconnect.com/v3/logo/".to_string();
        url.append(size_mark);
        url.append("/");
        url.append(self.image_id.as_str());
        url.append("?projectId=");
        url.append(self.project_id.as_str());
        url
    }
}

impl Ethereum {
    /// The URL of the directory's wallet listing for the configured relay project;
    /// fails with `Unavailable` when none is configured.
    pub fn wallets_listing_url(&self) -> (r: Result<String, EthereumError>)
        ensures
            match self.wc_project_id {
                Some(p) => r is Ok && r->Ok_0@ == "https://explorer-api.walletconnect.com/v3/wallets?projectId="@
                    + p@,
                None => r == Err::<String, EthereumError>(EthereumError::Unavailable),
            },
    {
        match &self.wc_project_id {
            None => Err(EthereumError::Unavailable),
            Some(p) => {
                let mut url = "https://explorer-api.walletconnect.com/v3/wallets?projectId=".to_string();
                url.append(p.as_str());
                Ok(url)
            },
        }
    }
}

} // verus!
