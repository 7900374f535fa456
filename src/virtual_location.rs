//! Virtual locations: web sites, endpoints, cloud services and the URLs and
//! IP addresses through which they are reached.
use vstd::prelude::*;
use crate::value_objects::{DomainError, ValidationRule};

verus! {

/// Whether `url::Url::parse` accepts the text.
pub uninterp spec fn url_parse_ok(s: Seq<char>) -> bool;

/// The host that `url::Url::host_str` gives for the parsed text, if any.
pub uninterp spec fn url_host_of(s: Seq<char>) -> Option<Seq<char>>;

/// Relies on `url::Url::parse`: whether the text is an absolute URL.
#[verifier::external_body]
fn url_parses(s: &str) -> (r: bool)
    ensures
        r == url_parse_ok(s@),
{
    url::Url::parse(s).is_ok()
}

/// Relies on `url::Url::parse` and `Url::host_str`: the host of the URL; none
/// when the text does not parse or has no host.
#[verifier::external_body]
fn url_host(s: &str) -> (r: Option<String>)
    ensures
        r is Some <==> url_host_of(s@) is Some,
        r matches Some(h) ==> h@ == url_host_of(s@).unwrap() && url_parse_ok(s@),
{
    match url::Url::parse(s) {
        Ok(u) => match u.host_str() {
            Some(h) => Some(h.to_string()),
            None => None,
        },
        Err(_) => None,
    }
}

/// The validation error for text that is no URL.
pub open spec fn invalid_url_error(e: DomainError) -> bool {
    e == DomainError::ValidationError(ValidationRule::InvalidUrl)
}

fn invalid_url() -> (e: DomainError)
    ensures
        invalid_url_error(e),
{
    DomainError::ValidationError(ValidationRule::InvalidUrl)
}

/// Kinds of virtual location.
#[derive(Clone, Debug, PartialEq, Eq, Hash)]
pub enum VirtualLocationType {
    Website,
    ApiEndpoint,
    /// Cloud service (AWS, Azure, GCP, ...).
    CloudService { provider: String, region: String },
    /// Container or pod.
    Container { orchestrator: String, namespace: String },
    VirtualMachine,
    NetworkDevice,
    /// Online meeting room.
    MeetingRoom { platform: String },
    /// Game server or virtual world.
    GameServer,
    BlockchainAddress { chain: String },
    EmailServer,
    Custom(String),
}

impl VirtualLocationType {
    /// The text form, such as `Cloud Service (AWS, us-east-1)`.
    pub open spec fn text(self) -> Seq<char> {
        match self {
            VirtualLocationType::Website => "Website"@,
            VirtualLocationType::ApiEndpoint => "API Endpoint"@,
            VirtualLocationType::CloudService { provider, region } => "Cloud Service ("@ + provider@
                + ", "@ + region@ + ")"@,
            VirtualLocationType::Container { orchestrator, namespace } => "Container ("@
                + orchestrator@ + "/"@ + namespace@ + ")"@,
            VirtualLocationType::VirtualMachine => "Virtual Machine"@,
            VirtualLocationType::NetworkDevice => "Network Device"@,
            VirtualLocationType::MeetingRoom { platform } => "Meeting Room ("@ + platform@ + ")"@,
            VirtualLocationType::GameServer => "Game Server"@,
            VirtualLocationType::BlockchainAddress { chain } => "Blockchain Address ("@ + chain@
                + ")"@,
            VirtualLocationType::EmailServer => "Email Server"@,
            VirtualLocationType::Custom(d) => "Custom ("@ + d@ + ")"@,
        }
    }

    pub fn to_string(&self) -> (r: String)
        ensures
            r@ == self.text(),
    {
        match self {
            VirtualLocationType::Website => String::from_str("Website"),
            VirtualLocationType::ApiEndpoint => String::from_str("API Endpoint"),
            VirtualLocationType::CloudService { provider, region } => String::from_str(
                "Cloud Service (",
            ).concat(provider.as_str()).concat(", ").concat(region.as_str()).concat(")"),
            VirtualLocationType::Container { orchestrator, namespace } => String::from_str(
                "Container (",
            ).concat(orchestrator.as_str()).concat("/").concat(namespace.as_str()).concat(")"),
            VirtualLocationType::VirtualMachine => String::from_str("Virtual Machine"),
            VirtualLocationType::NetworkDevice => String::from_str("Network Device"),
            VirtualLocationType::MeetingRoom { platform } => String::from_str(
                "Meeting Room (",
            ).concat(platform.as_str()).concat(")"),
            VirtualLocationType::GameServer => String::from_str("Game Server"),
            VirtualLocationType::BlockchainAddress { chain } => String::from_str(
                "Blockchain Address (",
            ).concat(chain.as_str()).concat(")"),
            VirtualLocationType::EmailServer => String::from_str("Email Server"),
            VirtualLocationType::Custom(d) => String::from_str("Custom (").concat(d.as_str()).concat(
                ")",
            ),
        }
    }
}

/// Kinds of URL.
#[derive(Clone, Debug, PartialEq, Eq, Hash)]
pub enum UrlType {
    Primary,
    Api,
    Documentation,
    Support,
    Status,
    Webhook,
    Cdn,
    /// Mirror or backup.
    Mirror,
    /// Development or staging.
    Development,
    Custom(String),
}

impl UrlType {
    /// The text form, such as `API` or `Custom (mirror-eu)`.
    pub open spec fn text(self) -> Seq<char> {
        match self {
            UrlType::Primary => "Primary"@,
            UrlType::Api => "API"@,
            UrlType::Documentation => "Documentation"@,
            UrlType::Support => "Support"@,
            UrlType::Status => "Status"@,
            UrlType::Webhook => "Webhook"@,
            UrlType::Cdn => "CDN"@,
            UrlType::Mirror => "Mirror"@,
            UrlType::Development => "Development"@,
            UrlType::Custom(d) => "Custom ("@ + d@ + ")"@,
        }
    }

    pub fn to_string(&self) -> (r: String)
        ensures
            r@ == self.text(),
    {
        match self {
            UrlType::Primary => String::from_str("Primary"),
            UrlType::Api => String::from_str("API"),
            UrlType::Documentation => String::from_str("Documentation"),
            UrlType::Support => String::from_str("Support"),
            UrlType::Status => String::from_str("Status"),
            UrlType::Webhook => String::from_str("Webhook"),
            UrlType::Cdn => String::from_str("CDN"),
            UrlType::Mirror => String::from_str("Mirror"),
            UrlType::Development => String::from_str("Development"),
            UrlType::Custom(d) => String::from_str("Custom (").concat(d.as_str()).concat(")"),
        }
    }
}

/// A URL with its kind, state and priority.
#[derive(Clone, Debug, PartialEq, Eq)]
pub struct VirtualUrl {
    pub url: String,
    pub url_type: UrlType,
    pub is_active: bool,
    /// Lower is preferred.
    pub priority: u8,
    pub metadata: Vec<(String, String)>,
}

/// `p` is a prefix of `s`.
pub open spec fn has_prefix(s: Seq<char>, p: Seq<char>) -> bool {
    p.len() <= s.len() && s.subrange(0, p.len() as int) == p
}

/// Whether `s` starts with `p`.
pub fn starts_with(s: &str, p: &str) -> (r: bool)
    ensures
        r == has_prefix(s@, p@),
{
    let n = p.unicode_len();
    if n > s.unicode_len() {
        return false;
    }
    let mut i: usize = 0;
    while i < n
        invariant
            n == p@.len(),
            n <= s@.len(),
            i <= n,
            forall|j: int| 0 <= j < i ==> s@[j] == p@[j],
        decreases n - i,
    {
        if s.get_char(i) != p.get_char(i) {
            assert(s@.subrange(0, n as int)[i as int] != p@[i as int]);
            return false;
        }
        i = i + 1;
    }
    assert(s@.subrange(0, n as int) =~= p@);
    true
}

impl VirtualUrl {
    /// A URL that is active, at priority 0, without metadata; fails when the
    /// text is no URL.
    pub fn new(url: String, url_type: UrlType) -> (r: Result<VirtualUrl, DomainError>)
        ensures
            r is Ok <==> url_parse_ok(url@),
            r matches Ok(u) ==> u.url == url && u.url_type == url_type && u.is_active && u.priority
                == 0 && u.metadata@.len() == 0,
            r matches Err(e) ==> invalid_url_error(e),
    {
        if !url_parses(url.as_str()) {
            return Err(invalid_url());
        }
        Ok(VirtualUrl { url, url_type, is_active: true, priority: 0, metadata: Vec::new() })
    }

    /// The host of the URL.
    pub fn domain(&self) -> (r: Option<String>)
        ensures
            r is Some <==> url_host_of(self.url@) is Some,
            r matches Some(h) ==> h@ == url_host_of(self.url@).unwrap(),
    {
        url_host(self.url.as_str())
    }

    /// Uses `https://` or `wss://`.
    pub fn is_secure(&self) -> (r: bool)
        ensures
            r == (has_prefix(self.url@, "https://"@) || has_prefix(self.url@, "wss://"@)),
    {
        starts_with(self.url.as_str(), "https://") || starts_with(self.url.as_str(), "wss://")
    }
}

/// An IP address, as its four octets or its eight 16-bit groups, most
/// significant first.
#[derive(Clone, Copy, Debug, PartialEq, Eq, Hash, Structural)]
pub enum IpAddr {
    V4(u8, u8, u8, u8),
    V6(u16, u16, u16, u16, u16, u16, u16, u16),
}

/// Kinds of IP address use.
#[derive(Clone, Debug, PartialEq, Eq, Hash)]
pub enum IpAddressType {
    Primary,
    LoadBalancer,
    Failover,
    Internal,
    VpnEndpoint,
    NatGateway,
    Custom(String),
}

impl IpAddressType {
    /// The text form, such as `Load Balancer`.
    pub open spec fn text(self) -> Seq<char> {
        match self {
            IpAddressType::Primary => "Primary"@,
            IpAddressType::LoadBalancer => "Load Balancer"@,
            IpAddressType::Failover => "Failover"@,
            IpAddressType::Internal => "Internal"@,
            IpAddressType::VpnEndpoint => "VPN Endpoint"@,
            IpAddressType::NatGateway => "NAT Gateway"@,
            IpAddressType::Custom(d) => "Custom ("@ + d@ + ")"@,
        }
    }

    pub fn to_string(&self) -> (r: String)
        ensures
            r@ == self.text(),
    {
        match self {
            IpAddressType::Primary => String::from_str("Primary"),
            IpAddressType::LoadBalancer => String::from_str("Load Balancer"),
            IpAddressType::Failover => String::from_str("Failover"),
            IpAddressType::Internal => String::from_str("Internal"),
            IpAddressType::VpnEndpoint => String::from_str("VPN Endpoint"),
            IpAddressType::NatGateway => String::from_str("NAT Gateway"),
            IpAddressType::Custom(d) => String::from_str("Custom (").concat(d.as_str()).concat(")"),
        }
    }
}

/// A port and the service behind it.
#[derive(Clone, Debug, PartialEq, Eq)]
pub struct PortMapping {
    pub port: u16,
    /// TCP, UDP, ...
    pub protocol: String,
    pub service: String,
    /// TLS or SSL.
    pub encrypted: bool,
}

impl PortMapping {
    pub fn new(port: u16, protocol: String, service: String) -> (r: PortMapping)
        ensures
            r == (PortMapping { port, protocol, service, encrypted: false }),
    {
        PortMapping { port, protocol, service, encrypted: false }
    }

    pub fn new_encrypted(port: u16, protocol: String, service: String) -> (r: PortMapping)
        ensures
            r == (PortMapping { port, protocol, service, encrypted: true }),
    {
        PortMapping { port, protocol, service, encrypted: true }
    }
}

/// An IP address with its use, state and ports.
#[derive(Clone, Debug, PartialEq, Eq)]
pub struct IpAddress {
    pub address: IpAddr,
    pub ip_type: IpAddressType,
    pub is_active: bool,
    pub ports: Vec<PortMapping>,
    pub reverse_dns: Option<String>,
}

/// Private IPv4 ranges (10/8, 172.16/12, 192.168/16), by the first two octets.
pub open spec fn is_private_v4(a: u8, b: u8) -> bool {
    a == 10 || (a == 172 && 16 <= b && b < 32) || (a == 192 && b == 168)
}

/// The IPv6 loopback address `::1`.
pub open spec fn is_loopback_v6(a: IpAddr) -> bool {
    a == IpAddr::V6(0, 0, 0, 0, 0, 0, 0, 1)
}

impl IpAddress {
    /// An active address without ports or reverse DNS.
    pub fn new(address: IpAddr, ip_type: IpAddressType) -> (r: IpAddress)
        ensures
            r.address == address,
            r.ip_type == ip_type,
            r.is_active,
            r.ports@.len() == 0,
            r.reverse_dns is None,
    {
        IpAddress { address, ip_type, is_active: true, ports: Vec::new(), reverse_dns: None }
    }

    pub fn add_port(&mut self, port: PortMapping)
        ensures
            final(self).ports@ == old(self).ports@.push(port),
            final(self).address == old(self).address,
            final(self).ip_type == old(self).ip_type,
            final(self).is_active == old(self).is_active,
            final(self).reverse_dns == old(self).reverse_dns,
    {
        self.ports.push(port);
    }

    /// IPv4: a private range. IPv6: loopback or multicast (`ff00::/8`).
    pub fn is_private(&self) -> (r: bool)
        ensures
            r == match self.address {
                IpAddr::V4(a, b, _, _) => is_private_v4(a, b),
                IpAddr::V6(g0, _, _, _, _, _, _, _) => is_loopback_v6(self.address) || g0 >= 0xff00,
            },
    {
        match self.address {
            IpAddr::V4(a, b, _, _) => a == 10 || (a == 172 && 16 <= b && b < 32) || (a == 192 && b
                == 168),
            IpAddr::V6(g0, g1, g2, g3, g4, g5, g6, g7) => (g0 == 0 && g1 == 0 && g2 == 0 && g3 == 0
                && g4 == 0 && g5 == 0 && g6 == 0 && g7 == 1) || g0 >= 0xff00,
        }
    }

    /// IPv4: `127/8`. IPv6: `::1`.
    pub fn is_loopback(&self) -> (r: bool)
        ensures
            r == match self.address {
                IpAddr::V4(a, _, _, _) => a == 127,
                IpAddr::V6(..) => is_loopback_v6(self.address),
            },
    {
        match self.address {
            IpAddr::V4(a, _, _, _) => a == 127,
            IpAddr::V6(g0, g1, g2, g3, g4, g5, g6, g7) => g0 == 0 && g1 == 0 && g2 == 0 && g3 == 0
                && g4 == 0 && g5 == 0 && g6 == 0 && g7 == 1,
        }
    }
}

/// BGP routing information.
#[derive(Clone, Debug, PartialEq, Eq)]
pub struct BgpInfo {
    pub communities: Vec<String>,
    pub origin_as: u32,
    pub as_path: Vec<u32>,
}

/// Network information of a virtual location.
#[derive(Clone, Debug, PartialEq, Eq)]
pub struct NetworkInfo {
    /// Autonomous system number.
    pub asn: Option<u32>,
    /// Autonomous system organisation.
    pub as_org: Option<String>,
    pub cidr_blocks: Vec<String>,
    pub bgp_info: Option<BgpInfo>,
    /// Latency to named points, in microseconds.
    pub latency_map: Vec<(String, u64)>,
}

/// A location reached online.
#[derive(Clone, Debug, PartialEq, Eq)]
pub struct VirtualLocation {
    pub location_type: VirtualLocationType,
    pub primary_identifier: String,
    pub urls: Vec<VirtualUrl>,
    pub ip_addresses: Vec<IpAddress>,
    pub network_info: Option<NetworkInfo>,
    pub metadata: Vec<(String, String)>,
}

/// `u` is an active primary URL.
pub open spec fn is_primary_candidate(u: VirtualUrl) -> bool {
    u.url_type == UrlType::Primary && u.is_active
}

/// `i` is the first active primary URL of least priority.
pub open spec fn is_primary_url_index(urls: Seq<VirtualUrl>, i: int) -> bool {
    &&& 0 <= i < urls.len()
    &&& is_primary_candidate(urls[i])
    &&& forall|j: int|
        0 <= j < urls.len() && is_primary_candidate(#[trigger] urls[j]) ==> urls[i].priority
            <= urls[j].priority
    &&& forall|j: int|
        0 <= j < i && is_primary_candidate(#[trigger] urls[j]) ==> urls[i].priority
            < urls[j].priority
}

impl VirtualLocation {
    /// A location with one URL and nothing else.
    pub open spec fn single_url(self, t: VirtualLocationType, url: VirtualUrl) -> bool {
        &&& self.location_type == t
        &&& self.urls@ == seq![url]
        &&& self.ip_addresses@.len() == 0
        &&& self.network_info is None
        &&& self.metadata@.len() == 0
    }

    /// A web site reached at `url`, named by the URL's host, or by `name`
    /// when the URL has none; fails when the text is no URL.
    pub fn website(url: &str, name: String) -> (r: Result<VirtualLocation, DomainError>)
        ensures
            r is Ok <==> url_parse_ok(url@),
            r matches Err(e) ==> invalid_url_error(e),
            r matches Ok(v) ==> v.location_type == VirtualLocationType::Website && v.urls@.len()
                == 1 && v.urls@[0].url@ == url@ && v.urls@[0].url_type == UrlType::Primary
                && v.urls@[0].is_active && v.urls@[0].priority == 0 && v.ip_addresses@.len() == 0
                && v.network_info is None && v.metadata@.len() == 0 && v.primary_identifier@ == (
            match url_host_of(url@) {
                Some(h) => h,
                None => name@,
            }),
    {
        if !url_parses(url) {
            return Err(invalid_url());
        }
        let primary_identifier = match url_host(url) {
            Some(h) => h,
            None => name,
        };
        let u = VirtualUrl {
            url: String::from_str(url),
            url_type: UrlType::Primary,
            is_active: true,
            priority: 0,
            metadata: Vec::new(),
        };
        Ok(
            VirtualLocation {
                location_type: VirtualLocationType::Website,
                primary_identifier,
                urls: vec![u],
                ip_addresses: Vec::new(),
                network_info: None,
                metadata: Vec::new(),
            },
        )
    }

    /// An API endpoint at `base_url`, named `name`; fails when the text is no URL.
    pub fn api_endpoint(base_url: &str, name: String) -> (r: Result<VirtualLocation, DomainError>)
        ensures
            r is Ok <==> url_parse_ok(base_url@),
            r matches Err(e) ==> invalid_url_error(e),
            r matches Ok(v) ==> v.location_type == VirtualLocationType::ApiEndpoint
                && v.primary_identifier == name && v.urls@.len() == 1 && v.urls@[0].url@
                == base_url@ && v.urls@[0].url_type == UrlType::Api && v.urls@[0].is_active
                && v.urls@[0].priority == 0 && v.ip_addresses@.len() == 0 && v.network_info is None
                && v.metadata@.len() == 0,
    {
        if !url_parses(base_url) {
            return Err(invalid_url());
        }
        let u = VirtualUrl {
            url: String::from_str(base_url),
            url_type: UrlType::Api,
            is_active: true,
            priority: 0,
            metadata: Vec::new(),
        };
        Ok(
            VirtualLocation {
                location_type: VirtualLocationType::ApiEndpoint,
                primary_identifier: name,
                urls: vec![u],
                ip_addresses: Vec::new(),
                network_info: None,
                metadata: Vec::new(),
            },
        )
    }

    /// A cloud service of `provider` in `region`, identified by `service_id`.
    pub fn cloud_service(provider: String, region: String, service_id: String) -> (r: Result<
        VirtualLocation,
        DomainError,
    >)
        ensures
            r matches Ok(v) && v.location_type == (VirtualLocationType::CloudService {
                provider,
                region,
            }) && v.primary_identifier == service_id && v.urls@.len() == 0
                && v.ip_addresses@.len() == 0 && v.network_info is None && v.metadata@.len() == 0,
    {
        Ok(
            VirtualLocation {
                location_type: VirtualLocationType::CloudService { provider, region },
                primary_identifier: service_id,
                urls: Vec::new(),
                ip_addresses: Vec::new(),
                network_info: None,
                metadata: Vec::new(),
            },
        )
    }

    /// Appends a URL; fails, leaving the location unchanged, when its text is no URL.
    pub fn add_url(&mut self, url: VirtualUrl) -> (r: Result<(), DomainError>)
        ensures
            r is Ok <==> url_parse_ok(url.url@),
            r matches Err(e) ==> invalid_url_error(e),
            r is Ok ==> final(self).urls@ == old(self).urls@.push(url),
            r is Err ==> final(self).urls@ == old(self).urls@,
            final(self).location_type == old(self).location_type,
            final(self).primary_identifier == old(self).primary_identifier,
            final(self).ip_addresses@ == old(self).ip_addresses@,
            final(self).network_info == old(self).network_info,
            final(self).metadata@ == old(self).metadata@,
    {
        if !url_parses(url.url.as_str()) {
            return Err(invalid_url());
        }
        self.urls.push(url);
        Ok(())
    }

    /// Appends an IP address.
    pub fn add_ip_address(&mut self, ip: IpAddress) -> (r: Result<(), DomainError>)
        ensures
            r is Ok,
            final(self).ip_addresses@ == old(self).ip_addresses@.push(ip),
            final(self).location_type == old(self).location_type,
            final(self).primary_identifier == old(self).primary_identifier,
            final(self).urls@ == old(self).urls@,
            final(self).network_info == old(self).network_info,
            final(self).metadata@ == old(self).metadata@,
    {
        self.ip_addresses.push(ip);
        Ok(())
    }

    /// The first active primary URL of least priority.
    pub fn primary_url(&self) -> (r: Option<&str>)
        ensures
            r is None <==> forall|j: int|
                0 <= j < self.urls@.len() ==> !is_primary_candidate(#[trigger] self.urls@[j]),
            r matches Some(s) ==> exists|i: int|
                is_primary_url_index(self.urls@, i) && s@ == self.urls@[i].url@,
    {
        let mut best: Option<usize> = None;
        let mut i: usize = 0;
        while i < self.urls.len()
            invariant
                i <= self.urls@.len(),
                best is None <==> forall|j: int|
                    0 <= j < i ==> !is_primary_candidate(#[trigger] self.urls@[j]),
                best matches Some(b) ==> b < i && is_primary_candidate(self.urls@[b as int])
                    && (forall|j: int|
                    0 <= j < i && is_primary_candidate(#[trigger] self.urls@[j])
                        ==> self.urls@[b as int].priority <= self.urls@[j].priority) && (forall|
                    j: int|
                    0 <= j < b && is_primary_candidate(#[trigger] self.urls@[j])
                        ==> self.urls@[b as int].priority < self.urls@[j].priority),
            decreases self.urls@.len() - i,
        {
            let u = &self.urls[i];
            if matches!(u.url_type, UrlType::Primary) && u.is_active {
                match best {
                    None => {
                        best = Some(i);
                    },
                    Some(b) => {
                        if u.priority < self.urls[b].priority {
                            best = Some(i);
                        }
                    },
                }
            }
            i = i + 1;
        }
        match best {
            None => None,
            Some(b) => {
                assert(is_primary_url_index(self.urls@, b as int));
                Some(self.urls[b].url.as_str())
            },
        }
    }

    /// The first active primary IP address.
    pub fn primary_ip(&self) -> (r: Option<IpAddr>)
        ensures
            r is None <==> forall|j: int|
                0 <= j < self.ip_addresses@.len() ==> !is_primary_ip(
                    #[trigger] self.ip_addresses@[j],
                ),
            r matches Some(a) ==> exists|i: int|
                0 <= i < self.ip_addresses@.len() && is_primary_ip(self.ip_addresses@[i]) && (forall|
                    j: int|
                    0 <= j < i ==> !is_primary_ip(#[trigger] self.ip_addresses@[j]))
                    && self.ip_addresses@[i].address == a,
    {
        let mut i: usize = 0;
        while i < self.ip_addresses.len()
            invariant
                i <= self.ip_addresses@.len(),
                forall|j: int| 0 <= j < i ==> !is_primary_ip(#[trigger] self.ip_addresses@[j]),
            decreases self.ip_addresses@.len() - i,
        {
            let ip = &self.ip_addresses[i];
            if matches!(ip.ip_type, IpAddressType::Primary) && ip.is_active {
                return Some(ip.address);
            }
            i = i + 1;
        }
        None
    }

    /// The active URLs, in order.
    pub fn active_urls(&self) -> (r: Vec<&VirtualUrl>)
        ensures
            r@.map_values(|u: &VirtualUrl| *u) == self.urls@.filter(|u: VirtualUrl| u.is_active),
    {
        let mut out: Vec<&VirtualUrl> = Vec::new();
        let mut i: usize = 0;
        while i < self.urls.len()
            invariant
                i <= self.urls@.len(),
                out@.map_values(|u: &VirtualUrl| *u) == self.urls@.take(i as int).filter(
                    |u: VirtualUrl| u.is_active,
                ),
            decreases self.urls@.len() - i,
        {
            proof {
                reveal(Seq::filter);
                assert(self.urls@.take(i + 1).drop_last() =~= self.urls@.take(i as int));
            }
            let ghost before = out@;
            if self.urls[i].is_active {
                out.push(&self.urls[i]);
                assert(out@.map_values(|u: &VirtualUrl| *u) =~= before.map_values(
                    |u: &VirtualUrl| *u,
                ).push(self.urls@[i as int]));
            }
            i = i + 1;
        }
        assert(self.urls@.take(self.urls@.len() as int) =~= self.urls@);
        out
    }

    /// The active IP addresses, in order.
    pub fn active_ips(&self) -> (r: Vec<&IpAddress>)
        ensures
            r@.map_values(|ip: &IpAddress| *ip) == self.ip_addresses@.filter(
                |ip: IpAddress| ip.is_active,
            ),
    {
        let mut out: Vec<&IpAddress> = Vec::new();
        let mut i: usize = 0;
        while i < self.ip_addresses.len()
            invariant
                i <= self.ip_addresses@.len(),
                out@.map_values(|ip: &IpAddress| *ip) == self.ip_addresses@.take(i as int).filter(
                    |ip: IpAddress| ip.is_active,
                ),
            decreases self.ip_addresses@.len() - i,
        {
            proof {
                reveal(Seq::filter);
                assert(self.ip_addresses@.take(i + 1).drop_last() =~= self.ip_addresses@.take(
                    i as int,
                ));
            }
            let ghost before = out@;
            if self.ip_addresses[i].is_active {
                out.push(&self.ip_addresses[i]);
                assert(out@.map_values(|ip: &IpAddress| *ip) =~= before.map_values(
                    |ip: &IpAddress| *ip,
                ).push(self.ip_addresses@[i as int]));
            }
            i = i + 1;
        }
        assert(self.ip_addresses@.take(self.ip_addresses@.len() as int) =~= self.ip_addresses@);
        out
    }

    /// Some active address is an IPv6 one.
    pub fn has_ipv6(&self) -> (r: bool)
        ensures
            r == exists|j: int|
                0 <= j < self.ip_addresses@.len() && #[trigger] self.ip_addresses@[j].is_active
                    && self.ip_addresses@[j].address is V6,
    {
        let mut i: usize = 0;
        while i < self.ip_addresses.len()
            invariant
                i <= self.ip_addresses@.len(),
                forall|j: int|
                    0 <= j < i ==> !(#[trigger] self.ip_addresses@[j].is_active
                        && self.ip_addresses@[j].address is V6),
            decreases self.ip_addresses@.len() - i,
        {
            let ip = &self.ip_addresses[i];
            if ip.is_active && matches!(ip.address, IpAddr::V6(..)) {
                return true;
            }
            i = i + 1;
        }
        false
    }
}

/// `ip` is an active primary address.
pub open spec fn is_primary_ip(ip: IpAddress) -> bool {
    ip.ip_type == IpAddressType::Primary && ip.is_active
}

} // verus!
