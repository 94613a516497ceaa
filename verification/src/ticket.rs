use std::str::FromStr;

use vstd::prelude::*;

use crate::error::IrohError;

verus! {

/// A blob hash: 32 bytes.
#[derive(Clone, PartialEq, Eq, Debug)]
pub struct Hash {
    /// The hash bytes.
    pub bytes: Vec<u8>,
}

/// A format of stored blobs.
#[derive(Clone, Copy, PartialEq, Eq, Structural, Debug)]
pub enum BlobFormat {
    /// Raw blob.
    Raw,
    /// A sequence of hashes; retrieving it means retrieving every
    /// blob it lists.
    HashSeq,
}

/// Addressing information for a remote node, as plain values.
#[derive(Clone, PartialEq, Eq, Debug)]
pub struct NodeAddr {
    /// The node's endpoint identifier: 32 key bytes.
    pub endpoint_id: Vec<u8>,
    /// The relay urls under which the node may be reachable.
    pub relay_urls: Vec<String>,
    /// The direct socket addresses under which the node may be
    /// reachable, as text.
    pub direct_addresses: Vec<String>,
}

/// Whether a downloaded blob gets an automatically chosen tag or a
/// named one.
#[derive(Clone, PartialEq, Eq, Debug)]
pub enum SetTagOption {
    /// A tag will be automatically generated.
    Auto,
    /// The blob will be tagged with the given name.
    Named(Vec<u8>),
}

/// The input parameters for a blob download call.
#[derive(Clone, PartialEq, Eq, Debug)]
pub struct BlobDownloadOptions {
    /// The format of the blob to download.
    pub format: BlobFormat,
    /// The provider to download from.
    pub node: NodeAddr,
    /// How to tag the downloaded blob.
    pub tag: SetTagOption,
}

/// Options when creating a ticket.
#[derive(Clone, Copy, PartialEq, Eq, Structural, Debug)]
pub enum AddrInfoOptions {
    /// Only the endpoint identifier is added; discovery then finds
    /// the addresses.
    Id,
    /// Include both the relay url and the direct addresses.
    RelayAndAddresses,
    /// Only include the relay url.
    Relay,
    /// Only include the direct addresses.
    Addresses,
}

/// A token containing everything needed to get a file from a
/// provider: the provider's address, the blob's hash and its format.
#[derive(Clone, PartialEq, Eq, Debug)]
pub struct BlobTicket {
    /// The hash of the item this ticket can retrieve.
    pub hash: Hash,
    /// The format of the blob.
    pub format: BlobFormat,
    /// The provider to get the file from.
    pub node_addr: NodeAddr,
}

/// What the blob transfer crate parses a ticket string to: the hash,
/// format and provider address it carries, or nothing when the string
/// is not a valid ticket.
pub uninterp spec fn blob_ticket_of(s: Seq<char>) -> Option<BlobTicket>;

/// Relies on `iroh_blobs::ticket::BlobTicket::from_str`, which
/// decodes a ticket string or fails, and on its accessors `hash`,
/// `format` and `addr`, which return the decoded ticket's fields.
#[verifier::external_body]
fn parse_blob_ticket(s: &str) -> (r: Option<BlobTicket>)
    ensures
        r == blob_ticket_of(s@),
        r matches Some(t) ==> t.well_formed(),
{
    let t = match iroh_blobs::ticket::BlobTicket::from_str(s) {
        Ok(t) => t,
        Err(_) => return None,
    };
    Some(BlobTicket {
        hash: Hash { bytes: t.hash().as_bytes().to_vec() },
        format: if t.format().is_hash_seq() { BlobFormat::HashSeq } else { BlobFormat::Raw },
        node_addr: NodeAddr {
            endpoint_id: t.addr().id.as_bytes().to_vec(),
            relay_urls: t.addr().relay_urls().map(|u| u.to_string()).collect(),
            direct_addresses: t.addr().ip_addrs().map(|a| a.to_string()).collect(),
        },
    })
}

/// Clone a list of strings.
fn clone_strings(v: &Vec<String>) -> (r: Vec<String>)
    ensures
        r@ == v@,
{
    let mut out: Vec<String> = Vec::new();
    let mut i: usize = 0;
    while i < v.len()
        invariant
            i <= v@.len(),
            out@.len() == i,
            forall|j: int| 0 <= j < i ==> out@[j] == v@[j],
        decreases v@.len() - i,
    {
        out.push(v[i].clone());
        i = i + 1;
    }
    proof {
        assert(out@ =~= v@);
    }
    out
}

impl NodeAddr {
    /// A copy of this address with the same contents.
    pub fn duplicate(&self) -> (r: NodeAddr)
        ensures
            r.endpoint_id@ == self.endpoint_id@,
            r.relay_urls@ == self.relay_urls@,
            r.direct_addresses@ == self.direct_addresses@,
    {
        let endpoint_id = self.endpoint_id.clone();
        proof {
            assert(endpoint_id@ =~= self.endpoint_id@);
        }
        NodeAddr {
            endpoint_id,
            relay_urls: clone_strings(&self.relay_urls),
            direct_addresses: clone_strings(&self.direct_addresses),
        }
    }
}

impl BlobTicket {
    /// Every parsed ticket keeps these shapes.
    pub open spec fn well_formed(&self) -> bool {
        &&& self.hash.bytes@.len() == 32
        &&& self.node_addr.endpoint_id@.len() == 32
    }

    /// Parse a ticket string. Fails exactly when the string is not a
    /// valid ticket.
    pub fn new(text: String) -> (r: Result<BlobTicket, IrohError>)
        ensures
            blob_ticket_of(text@) matches Some(t) ==> r == Ok::<BlobTicket, IrohError>(t),
            blob_ticket_of(text@) is None ==> r == Err::<BlobTicket, IrohError>(
                IrohError::InvalidTicket,
            ),
            r matches Ok(t) ==> t.well_formed(),
    {
        match parse_blob_ticket(text.as_str()) {
            Some(t) => Ok(t),
            None => Err(IrohError::InvalidTicket),
        }
    }

    /// The hash of the item this ticket can retrieve.
    pub fn hash(&self) -> (h: Hash)
        ensures
            h.bytes@ == self.hash.bytes@,
    {
        let bytes = self.hash.bytes.clone();
        proof {
            assert(bytes@ =~= self.hash.bytes@);
        }
        Hash { bytes }
    }

    /// The address of the provider for this ticket.
    pub fn node_addr(&self) -> (a: NodeAddr)
        ensures
            a.endpoint_id@ == self.node_addr.endpoint_id@,
            a.relay_urls@ == self.node_addr.relay_urls@,
            a.direct_addresses@ == self.node_addr.direct_addresses@,
    {
        self.node_addr.duplicate()
    }

    /// The format of the blob this ticket retrieves.
    pub fn format(&self) -> (f: BlobFormat)
        ensures
            f == self.format,
    {
        self.format
    }

    /// True if the ticket is for a collection and should retrieve all
    /// blobs in it.
    pub fn recursive(&self) -> (r: bool)
        ensures
            r == (self.format is HashSeq),
    {
        match self.format {
            BlobFormat::HashSeq => true,
            BlobFormat::Raw => false,
        }
    }

    /// Convert this ticket into input parameters for a download call:
    /// the ticket's format and provider, with an automatically chosen
    /// tag. This never fails.
    pub fn as_download_options(&self) -> (r: Result<BlobDownloadOptions, IrohError>)
        ensures
            r is Ok,
            r matches Ok(o) ==> {
                &&& o.format == self.format
                &&& o.node.endpoint_id@ == self.node_addr.endpoint_id@
                &&& o.node.relay_urls@ == self.node_addr.relay_urls@
                &&& o.node.direct_addresses@ == self.node_addr.direct_addresses@
                &&& o.tag == SetTagOption::Auto
            },
    {
        Ok(
            BlobDownloadOptions {
                format: self.format,
                node: self.node_addr.duplicate(),
                tag: SetTagOption::Auto,
            },
        )
    }
}

} // verus!
