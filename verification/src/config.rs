//! The configuration record: immutable after load, owned by the top-level
//! process, and passed by reference to whichever mode is selected.

use vstd::prelude::*;

verus! {

/// Settings for Forwarder mode: accept plain TCP connections at
/// `listen_address` and relay each one to the overlay destination named by
/// `forward_address`.
#[derive(Clone, Debug)]
pub struct Proxy {
    pub listen_address: String,
    pub forward_address: String,
}

/// Settings for Server mode: register a persistent overlay destination from
/// `private_key` (with `public_key` its public counterpart) and relay each
/// inbound overlay stream to the local TCP backend at `listen_address`.
/// `forward_address` is reserved and not read by the relay path.
#[derive(Clone, Debug)]
pub struct Server {
    pub listen_address: String,
    pub forward_address: String,
    pub private_key: String,
    pub public_key: String,
}

/// The control-protocol endpoint, as a host:port string.
#[derive(Clone, Debug)]
pub struct SAM {
    pub endpoint: String,
}

/// The whole configuration record, one sub-record per concern.
#[derive(Clone, Debug)]
pub struct Configuration {
    pub proxy: Proxy,
    pub sam: SAM,
    pub server: Server,
}

impl Proxy {
    /// Both addresses are empty strings.
    pub open spec fn is_empty(self) -> bool {
        &&& self.listen_address@ == Seq::<char>::empty()
        &&& self.forward_address@ == Seq::<char>::empty()
    }
}

impl Server {
    /// Every field is an empty string.
    pub open spec fn is_empty(self) -> bool {
        &&& self.listen_address@ == Seq::<char>::empty()
        &&& self.forward_address@ == Seq::<char>::empty()
        &&& self.private_key@ == Seq::<char>::empty()
        &&& self.public_key@ == Seq::<char>::empty()
    }
}

impl SAM {
    /// The endpoint is an empty string.
    pub open spec fn is_empty(self) -> bool {
        self.endpoint@ == Seq::<char>::empty()
    }
}

impl Configuration {
    /// Every field of every sub-record is an empty string.
    pub open spec fn is_empty(self) -> bool {
        &&& self.proxy.is_empty()
        &&& self.sam.is_empty()
        &&& self.server.is_empty()
    }

    /// A fresh configuration with every field empty, ready to be filled in
    /// and written out by the caller.
    pub fn new() -> (c: Self)
        ensures
            c.is_empty(),
    {
        Configuration {
            proxy: Proxy { listen_address: String::new(), forward_address: String::new() },
            sam: SAM { endpoint: String::new() },
            server: Server {
                listen_address: String::new(),
                forward_address: String::new(),
                private_key: String::new(),
                public_key: String::new(),
            },
        }
    }
}

impl Default for Configuration {
    fn default() -> (c: Self)
        ensures
            c.is_empty(),
    {
        Configuration::new()
    }
}

} // verus!
