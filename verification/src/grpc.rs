//! The binary-protocol side of the client: how its channel is set up and
//! what a bundle submission carries.

use vstd::prelude::*;
use vstd::string::StringSliceAdditionalSpecFns;
use crate::bundle::{check_transaction_count, count_verdict};
use crate::error::SdkError;

verus! {

/// Whether `pattern` stands in `text` from index `i` on.
pub open spec fn occurs_at(text: Seq<u8>, pattern: Seq<u8>, i: int) -> bool {
    0 <= i && i + pattern.len() <= text.len() && text.subrange(i, i + pattern.len()) == pattern
}

/// Whether `pattern` stands somewhere in `text`.
pub open spec fn occurs_in(text: Seq<u8>, pattern: Seq<u8>) -> bool {
    exists|i: int| occurs_at(text, pattern, i)
}

/// Whether `pattern` stands somewhere in `text`.
pub fn contains_bytes(text: &[u8], pattern: &[u8]) -> (found: bool)
    ensures
        found == occurs_in(text@, pattern@),
{
    if pattern.len() > text.len() {
        assert forall|i: int| !occurs_at(text@, pattern@, i) by {}
        return false;
    }
    let last = text.len() - pattern.len();
    let mut i: usize = 0;
    while i <= last
        invariant
            last == text.len() - pattern.len(),
            i <= last + 1,
            forall|k: int| 0 <= k < i ==> !occurs_at(text@, pattern@, k),
        decreases last + 1 - i,
    {
        let mut j: usize = 0;
        while j < pattern.len() && text[i + j] == pattern[j]
            invariant
                last == text.len() - pattern.len(),
                i <= last,
                j <= pattern.len(),
                forall|k: int| 0 <= k < j ==> text@[i + k] == pattern@[k],
            decreases pattern.len() - j,
        {
            j += 1;
        }
        if j == pattern.len() {
            assert(text@.subrange(i as int, i + pattern.len()) =~= pattern@);
            assert(occurs_at(text@, pattern@, i as int));
            return true;
        }
        assert(!occurs_at(text@, pattern@, i as int)) by {
            if occurs_at(text@, pattern@, i as int) {
                assert(text@.subrange(i as int, i + pattern.len())[j as int] == pattern@[j as int]);
            }
        }
        i += 1;
    }
    assert forall|k: int| !occurs_at(text@, pattern@, k) by {}
    false
}

/// How the channel to an endpoint is opened and kept alive.
#[derive(Debug, PartialEq, Eq)]
pub struct ChannelSettings {
    /// The address of the endpoint, as it was given.
    pub address: String,
    /// Whether the channel is secured.
    pub use_tls: bool,
    /// How long the connection may take to be made, in seconds.
    pub connect_timeout_secs: u64,
    /// The interval of the keep-alive probes of the connection, in seconds.
    pub tcp_keepalive_secs: u64,
    /// The interval of the keep-alive pings of the protocol, in seconds.
    pub http2_keep_alive_interval_secs: u64,
    /// How long the answer to a ping may take, in seconds.
    pub keep_alive_timeout_secs: u64,
    /// Whether pings are sent while no call is in progress.
    pub keep_alive_while_idle: bool,
}

/// The settings for the endpoint at `address`: secured exactly when the
/// address mentions `https`, with a connect timeout of 10 s, keep-alive
/// probes every 60 s, pings every 30 s that are answered within 20 s, also
/// while idle.
pub open spec fn settings_for(address: &str, settings: ChannelSettings) -> bool {
    &&& settings.address@ == address@
    &&& settings.use_tls == occurs_in(address.spec_bytes(), "https".spec_bytes())
    &&& settings.connect_timeout_secs == 10
    &&& settings.tcp_keepalive_secs == 60
    &&& settings.http2_keep_alive_interval_secs == 30
    &&& settings.keep_alive_timeout_secs == 20
    &&& settings.keep_alive_while_idle
}

/// One transaction on its way to the endpoint: its serialized bytes.
#[derive(Debug, PartialEq, Eq)]
pub struct Packet {
    pub data: Vec<u8>,
}

/// An ordered group of transactions that is submitted as one.
#[derive(Debug, PartialEq, Eq)]
pub struct Bundle {
    pub packets: Vec<Packet>,
}

impl View for Bundle {
    type V = Seq<Seq<u8>>;

    open spec fn view(&self) -> Seq<Seq<u8>> {
        Seq::new(self.packets.len() as nat, |i: int| self.packets[i].data@)
    }
}

/// The client of one binary-protocol endpoint.
#[derive(Debug)]
pub struct GrpcClient {
    settings: ChannelSettings,
}

impl GrpcClient {
    /// The settings of the channel.
    pub closed spec fn spec_settings(&self) -> ChannelSettings {
        self.settings
    }

    /// A client for the endpoint at `addr`, with the settings under which
    /// its channel is opened.
    pub fn connect(addr: &str) -> (client: GrpcClient)
        ensures
            settings_for(addr, client.spec_settings()),
    {
        let use_tls = contains_bytes(addr.as_bytes(), "https".as_bytes());
        GrpcClient {
            settings: ChannelSettings {
                address: addr.to_owned(),
                use_tls,
                connect_timeout_secs: 10,
                tcp_keepalive_secs: 60,
                http2_keep_alive_interval_secs: 30,
                keep_alive_timeout_secs: 20,
                keep_alive_while_idle: true,
            },
        }
    }

    /// The settings of the channel.
    pub fn settings(&self) -> (settings: &ChannelSettings)
        ensures
            *settings == self.spec_settings(),
    {
        &self.settings
    }

    /// The bundle that submits `transactions`, each given by its serialized
    /// bytes: one packet for each, in the order given. A bundle of no
    /// transaction, or of more than five, is refused.
    pub fn send_bundle(&self, transactions: Vec<Vec<u8>>) -> (bundle: Result<Bundle, SdkError>)
        ensures
            match count_verdict(transactions.len() as nat) {
                Ok(_) => bundle matches Ok(b) && b@ == transactions.deep_view(),
                Err(e) => bundle == Err::<Bundle, SdkError>(e),
            },
    {
        match check_transaction_count(transactions.len()) {
            Ok(_) => {},
            Err(e) => {
                return Err(e);
            },
        }
        let ghost all = transactions.deep_view();
        let mut transactions = transactions;
        let mut packets: Vec<Packet> = Vec::new();
        let n = transactions.len();
        let mut i: usize = 0;
        while i < n
            invariant
                i <= n,
                n == transactions.len(),
                all.len() == n,
                packets.len() == i,
                forall|j: int| i <= j < n ==> (#[trigger] transactions[j])@ == all[j],
                forall|j: int| 0 <= j < i ==> (#[trigger] packets[j]).data@ == all[j],
            decreases n - i,
        {
            let mut data: Vec<u8> = Vec::new();
            core::mem::swap(&mut data, &mut transactions[i]);
            packets.push(Packet { data });
            i += 1;
        }
        let bundle = Bundle { packets };
        assert(bundle@ =~= all);
        Ok(bundle)
    }
}

} // verus!
