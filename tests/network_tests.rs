use cim_domain_location::virtual_location::{
    IpAddr, IpAddress, IpAddressType, PortMapping, UrlType, VirtualLocation, VirtualLocationType,
    VirtualUrl,
};

#[test]
fn private_and_loopback_addresses() {
    let ip = IpAddress::new(IpAddr::V4(192, 168, 1, 1), IpAddressType::Primary);
    assert!(ip.is_private());
    assert!(!ip.is_loopback());
    let lo = IpAddress::new(IpAddr::V4(127, 0, 0, 1), IpAddressType::Internal);
    assert!(lo.is_loopback());
    assert!(!lo.is_private());
    let v6 = IpAddress::new(IpAddr::V6(0x2001, 0xdb8, 0, 0, 0, 0, 0, 1), IpAddressType::Primary);
    assert!(!v6.is_private());
    let v6lo = IpAddress::new(IpAddr::V6(0, 0, 0, 0, 0, 0, 0, 1), IpAddressType::Primary);
    assert!(v6lo.is_loopback() && v6lo.is_private());
}

#[test]
fn ports_and_primary_ip() {
    let mut ip = IpAddress::new(IpAddr::V4(10, 0, 0, 1), IpAddressType::Primary);
    ip.add_port(PortMapping::new_encrypted(443, "TCP".to_string(), "https".to_string()));
    ip.add_port(PortMapping::new(80, "TCP".to_string(), "http".to_string()));
    assert_eq!(ip.ports.len(), 2);
    assert!(ip.ports[0].encrypted && !ip.ports[1].encrypted);

    let mut v = VirtualLocation::cloud_service("GCP".to_string(), "eu".to_string(), "svc".to_string()).unwrap();
    assert_eq!(v.primary_ip(), None);
    assert!(!v.has_ipv6());
    v.add_ip_address(IpAddress::new(IpAddr::V6(0x2001, 0xdb8, 0, 0, 0, 0, 0, 1), IpAddressType::Failover)).unwrap();
    v.add_ip_address(ip).unwrap();
    assert_eq!(v.primary_ip(), Some(IpAddr::V4(10, 0, 0, 1)));
    assert!(v.has_ipv6());
}

#[test]
fn active_entries_and_type_texts() {
    let mut v = VirtualLocation::website("https://example.com", "x".to_string()).unwrap();
    let mut off = VirtualUrl::new("https://old.example.com".to_string(), UrlType::Mirror).unwrap();
    off.is_active = false;
    v.add_url(off).unwrap();
    v.add_url(VirtualUrl::new("https://docs.example.com".to_string(), UrlType::Documentation).unwrap())
        .unwrap();
    let active: Vec<&str> = v.active_urls().iter().map(|u| u.url.as_str()).collect();
    assert_eq!(active, vec!["https://example.com", "https://docs.example.com"]);

    let mut down = IpAddress::new(IpAddr::V4(10, 0, 0, 2), IpAddressType::Failover);
    down.is_active = false;
    v.add_ip_address(down).unwrap();
    v.add_ip_address(IpAddress::new(IpAddr::V4(10, 0, 0, 3), IpAddressType::LoadBalancer)).unwrap();
    let ips: Vec<IpAddr> = v.active_ips().iter().map(|i| i.address).collect();
    assert_eq!(ips, vec![IpAddr::V4(10, 0, 0, 3)]);

    assert_eq!(
        VirtualLocationType::CloudService { provider: "AWS".to_string(), region: "us-east-1".to_string() }
            .to_string(),
        "Cloud Service (AWS, us-east-1)"
    );
    assert_eq!(UrlType::Cdn.to_string(), "CDN");
    assert_eq!(IpAddressType::Custom("edge".to_string()).to_string(), "Custom (edge)");
}
