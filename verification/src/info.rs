//! What a node reports about itself: its identify and Kademlia information.

use vstd::prelude::*;

use crate::history::{KadMode, strings_view};
use crate::text::clone_strings;

verus! {

/// A node's local identify information (what it pushes to other peers).
#[derive(Clone, Debug)]
pub struct IdentifyInfo {
    /// Protobuf encoding of the node's public key.
    pub public_key: Vec<u8>,
    pub protocol_version: String,
    pub agent_string: String,
    pub listen_addr: String,
}

/// Abstract form of [`IdentifyInfo`].
pub struct IdentifyInfoView {
    pub public_key: Seq<u8>,
    pub protocol_version: Seq<char>,
    pub agent_string: Seq<char>,
    pub listen_addr: Seq<char>,
}

impl View for IdentifyInfo {
    type V = IdentifyInfoView;

    open spec fn view(&self) -> IdentifyInfoView {
        IdentifyInfoView {
            public_key: self.public_key@,
            protocol_version: self.protocol_version@,
            agent_string: self.agent_string@,
            listen_addr: self.listen_addr@,
        }
    }
}

fn clone_bytes(v: &Vec<u8>) -> (r: Vec<u8>)
    ensures
        r@ == v@,
{
    let mut r: Vec<u8> = Vec::new();
    let mut i: usize = 0;
    while i < v.len()
        invariant
            i <= v.len(),
            r@ == v@.subrange(0, i as int),
        decreases v.len() - i,
    {
        r.push(v[i]);
        i += 1;
    }
    r
}

impl IdentifyInfo {
    /// Gathers a node's local identify information.
    pub fn new(
        public_key: Vec<u8>,
        protocol_version: String,
        agent_string: String,
        listen_addr: String,
    ) -> (r: Self)
        ensures
            r@ == (IdentifyInfoView {
                public_key: public_key@,
                protocol_version: protocol_version@,
                agent_string: agent_string@,
                listen_addr: listen_addr@,
            }),
    {
        IdentifyInfo { public_key, protocol_version, agent_string, listen_addr }
    }

    /// An identical copy.
    pub fn duplicate(&self) -> (r: Self)
        ensures
            r@ == self@,
    {
        IdentifyInfo {
            public_key: clone_bytes(&self.public_key),
            protocol_version: self.protocol_version.clone(),
            agent_string: self.agent_string.clone(),
            listen_addr: self.listen_addr.clone(),
        }
    }
}

/// One bound of a k-bucket's distance range: a 256-bit number as four
/// 64-bit words, least significant first.
#[derive(Clone, Copy, Debug, PartialEq, Eq, Structural)]
pub struct Distance {
    pub w0: u64,
    pub w1: u64,
    pub w2: u64,
    pub w3: u64,
}

/// Information about one k-bucket.
#[derive(Clone, Copy, Debug, PartialEq, Eq, Structural)]
pub struct KBucketInfo {
    pub range_start: Distance,
    pub range_end: Distance,
    pub num_entries: usize,
}

/// A node's Kademlia information.
#[derive(Clone, Debug)]
pub struct KademliaInfo {
    pub mode: KadMode,
    pub bootstrapped: bool,
    pub closest_peers: Vec<String>,
    pub bucket_info: Vec<KBucketInfo>,
}

/// Abstract form of [`KademliaInfo`].
pub struct KademliaInfoView {
    pub mode: KadMode,
    pub bootstrapped: bool,
    pub closest_peers: Seq<Seq<char>>,
    pub bucket_info: Seq<KBucketInfo>,
}

impl View for KademliaInfo {
    type V = KademliaInfoView;

    open spec fn view(&self) -> KademliaInfoView {
        KademliaInfoView {
            mode: self.mode,
            bootstrapped: self.bootstrapped,
            closest_peers: strings_view(self.closest_peers@),
            bucket_info: self.bucket_info@,
        }
    }
}

fn clone_buckets(v: &Vec<KBucketInfo>) -> (r: Vec<KBucketInfo>)
    ensures
        r@ == v@,
{
    let mut r: Vec<KBucketInfo> = Vec::new();
    let mut i: usize = 0;
    while i < v.len()
        invariant
            i <= v.len(),
            r@ == v@.subrange(0, i as int),
        decreases v.len() - i,
    {
        r.push(v[i]);
        i += 1;
    }
    r
}

impl KademliaInfo {
    /// Kademlia information with no peers and no buckets yet.
    pub fn new(mode: KadMode, bootstrapped: bool) -> (r: Self)
        ensures
            r@ == (KademliaInfoView {
                mode,
                bootstrapped,
                closest_peers: Seq::empty(),
                bucket_info: Seq::empty(),
            }),
    {
        let r = KademliaInfo { mode, bootstrapped, closest_peers: Vec::new(), bucket_info: Vec::new() };
        assert(r@.closest_peers =~= Seq::<Seq<char>>::empty());
        r
    }

    pub fn set_mode(&mut self, mode: KadMode)
        ensures
            final(self)@ == (KademliaInfoView { mode, ..old(self)@ }),
    {
        self.mode = mode;
    }

    pub fn set_closest_peers(&mut self, peers: Vec<String>)
        ensures
            final(self)@ == (KademliaInfoView { closest_peers: strings_view(peers@), ..old(self)@ }),
    {
        self.closest_peers = peers;
    }

    pub fn set_bucket_info(&mut self, bucket_info: Vec<KBucketInfo>)
        ensures
            final(self)@ == (KademliaInfoView { bucket_info: bucket_info@, ..old(self)@ }),
    {
        self.bucket_info = bucket_info;
    }

    pub fn set_bootstrapped(&mut self, bootstrapped: bool)
        ensures
            final(self)@ == (KademliaInfoView { bootstrapped, ..old(self)@ }),
    {
        self.bootstrapped = bootstrapped;
    }

    /// An identical copy.
    pub fn duplicate(&self) -> (r: Self)
        ensures
            r@ == self@,
    {
        KademliaInfo {
            mode: self.mode,
            bootstrapped: self.bootstrapped,
            closest_peers: clone_strings(&self.closest_peers),
            bucket_info: clone_buckets(&self.bucket_info),
        }
    }
}

} // verus!
