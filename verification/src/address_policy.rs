use crate::receipt_image_codes::ReceiptImageFailureCodeV1;
use std::str::FromStr;
use vstd::prelude::*;

verus! {

/// An IP address by its numeric value.
#[derive(Clone, Copy, Debug, PartialEq, Eq, Structural)]
pub enum IpAddress {
    V4(u32),
    V6(u128),
}

/// A resolved address with the port that a connection would use.
#[derive(Clone, Copy, Debug, PartialEq, Eq, Structural)]
pub struct SocketAddress {
    pub ip: IpAddress,
    pub port: u16,
}

/// An IP network as `ipnet` holds it: the address it was written with and its
/// prefix length.
#[derive(Clone, Copy, Debug, PartialEq, Eq, Structural)]
pub enum IpNetwork {
    V4 { address: u32, prefix_len: u8 },
    V6 { address: u128, prefix_len: u8 },
}

/// Most DNS answers that a download accepts for one host.
pub const MAX_RECEIPT_IMAGE_DNS_ANSWERS: usize = 16;

/// What `ipnet` parses `text` into, as an `IpNetwork`.
pub uninterp spec fn ipnet_parse(text: Seq<char>) -> Option<IpNetwork>;

/// `ipnet::IpNet::from_str`: the network written in `text`, or `None` when the
/// text is no CIDR network. Its parser reads at most 32 (IPv4) or 128 (IPv6)
/// as the prefix length.
#[verifier::external_body]
fn parse_network(text: &str) -> (network: Option<IpNetwork>)
    ensures
        network == ipnet_parse(text@),
        network matches Some(IpNetwork::V4 { prefix_len, .. }) ==> prefix_len <= 32,
        network matches Some(IpNetwork::V6 { prefix_len, .. }) ==> prefix_len <= 128,
{
    match ipnet::IpNet::from_str(text) {
        Ok(ipnet::IpNet::V4(net)) => Some(
            IpNetwork::V4 { address: u32::from(net.addr()), prefix_len: net.prefix_len() },
        ),
        Ok(ipnet::IpNet::V6(net)) => Some(
            IpNetwork::V6 { address: u128::from(net.addr()), prefix_len: net.prefix_len() },
        ),
        Err(_) => None,
    }
}

/// Whether `address` lies in `network`: both of one family, and equal in the
/// first `prefix_len` bits.
pub open spec fn network_contains(network: IpNetwork, address: IpAddress) -> bool {
    match (network, address) {
        (IpNetwork::V4 { address: n, prefix_len: p }, IpAddress::V4(a)) => p == 0 || (a >> (32
            - p) as u32) == (n >> (32 - p) as u32),
        (IpNetwork::V6 { address: n, prefix_len: p }, IpAddress::V6(a)) => p == 0 || (a >> (128
            - p) as u32) == (n >> (128 - p) as u32),
        _ => false,
    }
}

/// A deny-list entry rejects `address` when its text does not parse, or when
/// the network it parses to contains the address.
pub open spec fn network_denies(network: Option<IpNetwork>, address: IpAddress) -> bool {
    match network {
        None => true,
        Some(n) => network_contains(n, address),
    }
}

/// Whether the deny-list entry `network` (as parsed) rejects `address`.
pub fn address_denied_by(network: Option<IpNetwork>, address: IpAddress) -> (denied: bool)
    requires
        network matches Some(IpNetwork::V4 { prefix_len, .. }) ==> prefix_len <= 32,
        network matches Some(IpNetwork::V6 { prefix_len, .. }) ==> prefix_len <= 128,
    ensures
        denied == network_denies(network, address),
{
    match network {
        None => true,
        Some(IpNetwork::V4 { address: n, prefix_len: p }) => match address {
            IpAddress::V4(a) => p == 0 || (a >> (32 - p) as u32) == (n >> (32 - p) as u32),
            IpAddress::V6(_) => false,
        },
        Some(IpNetwork::V6 { address: n, prefix_len: p }) => match address {
            IpAddress::V6(a) => p == 0 || (a >> (128 - p) as u32) == (n >> (128 - p) as u32),
            IpAddress::V4(_) => false,
        },
    }
}

pub const V4_DENY_COUNT: usize = 18;

pub const V6_DENY_COUNT: usize = 15;

/// The IPv4 special-purpose networks that a receipt image may not come from.
pub open spec fn v4_deny_entry(i: int) -> Seq<char> {
    if i == 0 {
        "0.0.0.0/8"@
    } else if i == 1 {
        "10.0.0.0/8"@
    } else if i == 2 {
        "100.64.0.0/10"@
    } else if i == 3 {
        "127.0.0.0/8"@
    } else if i == 4 {
        "169.254.0.0/16"@
    } else if i == 5 {
        "172.16.0.0/12"@
    } else if i == 6 {
        "192.0.0.0/24"@
    } else if i == 7 {
        "192.0.2.0/24"@
    } else if i == 8 {
        "192.31.196.0/24"@
    } else if i == 9 {
        "192.52.193.0/24"@
    } else if i == 10 {
        "192.88.99.0/24"@
    } else if i == 11 {
        "192.168.0.0/16"@
    } else if i == 12 {
        "192.175.48.0/24"@
    } else if i == 13 {
        "198.18.0.0/15"@
    } else if i == 14 {
        "198.51.100.0/24"@
    } else if i == 15 {
        "203.0.113.0/24"@
    } else if i == 16 {
        "224.0.0.0/4"@
    } else {
        "240.0.0.0/4"@
    }
}

/// The IPv6 special-purpose networks that a receipt image may not come from.
pub open spec fn v6_deny_entry(i: int) -> Seq<char> {
    if i == 0 {
        "::/128"@
    } else if i == 1 {
        "::/96"@
    } else if i == 2 {
        "::1/128"@
    } else if i == 3 {
        "::ffff:0:0/96"@
    } else if i == 4 {
        "64:ff9b::/96"@
    } else if i == 5 {
        "64:ff9b:1::/48"@
    } else if i == 6 {
        "100::/64"@
    } else if i == 7 {
        "2001::/23"@
    } else if i == 8 {
        "2001:db8::/32"@
    } else if i == 9 {
        "2002::/16"@
    } else if i == 10 {
        "3fff::/20"@
    } else if i == 11 {
        "fc00::/7"@
    } else if i == 12 {
        "fe80::/10"@
    } else if i == 13 {
        "fec0::/10"@
    } else {
        "ff00::/8"@
    }
}

fn v4_deny_text(i: usize) -> (text: &'static str)
    requires
        i < V4_DENY_COUNT,
    ensures
        text@ == v4_deny_entry(i as int),
{
    if i == 0 {
        "0.0.0.0/8"
    } else if i == 1 {
        "10.0.0.0/8"
    } else if i == 2 {
        "100.64.0.0/10"
    } else if i == 3 {
        "127.0.0.0/8"
    } else if i == 4 {
        "169.254.0.0/16"
    } else if i == 5 {
        "172.16.0.0/12"
    } else if i == 6 {
        "192.0.0.0/24"
    } else if i == 7 {
        "192.0.2.0/24"
    } else if i == 8 {
        "192.31.196.0/24"
    } else if i == 9 {
        "192.52.193.0/24"
    } else if i == 10 {
        "192.88.99.0/24"
    } else if i == 11 {
        "192.168.0.0/16"
    } else if i == 12 {
        "192.175.48.0/24"
    } else if i == 13 {
        "198.18.0.0/15"
    } else if i == 14 {
        "198.51.100.0/24"
    } else if i == 15 {
        "203.0.113.0/24"
    } else if i == 16 {
        "224.0.0.0/4"
    } else {
        "240.0.0.0/4"
    }
}

fn v6_deny_text(i: usize) -> (text: &'static str)
    requires
        i < V6_DENY_COUNT,
    ensures
        text@ == v6_deny_entry(i as int),
{
    if i == 0 {
        "::/128"
    } else if i == 1 {
        "::/96"
    } else if i == 2 {
        "::1/128"
    } else if i == 3 {
        "::ffff:0:0/96"
    } else if i == 4 {
        "64:ff9b::/96"
    } else if i == 5 {
        "64:ff9b:1::/48"
    } else if i == 6 {
        "100::/64"
    } else if i == 7 {
        "2001::/23"
    } else if i == 8 {
        "2001:db8::/32"
    } else if i == 9 {
        "2002::/16"
    } else if i == 10 {
        "3fff::/20"
    } else if i == 11 {
        "fc00::/7"
    } else if i == 12 {
        "fe80::/10"
    } else if i == 13 {
        "fec0::/10"
    } else {
        "ff00::/8"
    }
}

/// The Azure wire server (168.63.129.16) and Alibaba's metadata service
/// (100.100.100.200).
pub open spec fn is_cloud_metadata_v4(a: u32) -> bool {
    a == 2822734096u32 || a == 1684301000u32
}

/// How many deny-list networks the family of `address` has.
pub open spec fn deny_count(address: IpAddress) -> int {
    match address {
        IpAddress::V4(_) => V4_DENY_COUNT as int,
        IpAddress::V6(_) => V6_DENY_COUNT as int,
    }
}

/// Special-purpose addresses: those that a deny-list entry of their family
/// rejects, and two cloud metadata endpoints.
pub open spec fn is_special_address_spec(address: IpAddress) -> bool {
    ||| exists|i: int|
        0 <= i < deny_count(address) && #[trigger] network_denies(
            ipnet_parse(deny_entry(address, i)),
            address,
        )
    ||| address matches IpAddress::V4(a) && is_cloud_metadata_v4(a)
}

pub open spec fn deny_entry(address: IpAddress, i: int) -> Seq<char> {
    match address {
        IpAddress::V4(_) => v4_deny_entry(i),
        IpAddress::V6(_) => v6_deny_entry(i),
    }
}

fn is_special_address(address: IpAddress) -> (special: bool)
    ensures
        special == is_special_address_spec(address),
{
    let count = match address {
        IpAddress::V4(_) => V4_DENY_COUNT,
        IpAddress::V6(_) => V6_DENY_COUNT,
    };
    let mut i: usize = 0;
    while i < count
        invariant
            i <= count,
            count == (match address {
                IpAddress::V4(_) => V4_DENY_COUNT,
                IpAddress::V6(_) => V6_DENY_COUNT,
            }),
            forall|j: int|
                0 <= j < i ==> !#[trigger] network_denies(ipnet_parse(deny_entry(address, j)), address),
        decreases count - i,
    {
        let text = match address {
            IpAddress::V4(_) => v4_deny_text(i),
            IpAddress::V6(_) => v6_deny_text(i),
        };
        let network = parse_network(text);
        if address_denied_by(network, address) {
            assert(network_denies(ipnet_parse(deny_entry(address, i as int)), address));
            return true;
        }
        i = i + 1;
    }
    match address {
        IpAddress::V4(a) => a == 2822734096u32 || a == 1684301000u32,
        IpAddress::V6(_) => false,
    }
}

/// The production policy: only public addresses on port 443.
#[derive(Clone, Copy, Debug)]
pub struct SealedProductionAddressPolicy {
    sealed: (),
}

impl SealedProductionAddressPolicy {
    pub fn new() -> (policy: Self) {
        SealedProductionAddressPolicy { sealed: () }
    }

    /// Whether a receipt image may be fetched from `address`.
    pub fn permits(address: IpAddress) -> (permitted: bool)
        ensures
            permitted == !is_special_address_spec(address),
    {
        !is_special_address(address)
    }

    /// Accepts a DNS answer only when it is not empty, has at most 16
    /// addresses, and every one of them is permitted and on port 443.
    pub fn validate(&self, addresses: &[SocketAddress]) -> (result: Result<(), ReceiptImageFailureCodeV1>)
        ensures
            result is Ok <==> (1 <= addresses@.len() <= MAX_RECEIPT_IMAGE_DNS_ANSWERS && forall|i: int|
                0 <= i < addresses@.len() ==> (#[trigger] addresses@[i]).port == 443
                    && !is_special_address_spec(addresses@[i].ip)),
            result matches Err(e) ==> e == ReceiptImageFailureCodeV1::AddressRejected,
    {
        if addresses.len() == 0 || addresses.len() > MAX_RECEIPT_IMAGE_DNS_ANSWERS {
            return Err(ReceiptImageFailureCodeV1::AddressRejected);
        }
        let mut i: usize = 0;
        while i < addresses.len()
            invariant
                i <= addresses@.len(),
                forall|j: int|
                    0 <= j < i ==> (#[trigger] addresses@[j]).port == 443 && !is_special_address_spec(
                        addresses@[j].ip,
                    ),
            decreases addresses@.len() - i,
        {
            let address = addresses[i];
            if address.port != 443 || !Self::permits(address.ip) {
                return Err(ReceiptImageFailureCodeV1::AddressRejected);
            }
            i = i + 1;
        }
        Ok(())
    }
}

/// A DNS answer is used only with 1 to 16 addresses.
pub fn check_answer_count(count: usize) -> (result: Result<(), ReceiptImageFailureCodeV1>)
    ensures
        result is Ok <==> 1 <= count <= MAX_RECEIPT_IMAGE_DNS_ANSWERS,
        result matches Err(e) ==> e == ReceiptImageFailureCodeV1::DnsAnswerLimit,
{
    if count == 0 || count > MAX_RECEIPT_IMAGE_DNS_ANSWERS {
        Err(ReceiptImageFailureCodeV1::DnsAnswerLimit)
    } else {
        Ok(())
    }
}

} // verus!
