use microhttp::endpoint::{default_endpoint, require_ipv4, Ipv4Endpoint};
use microhttp::server::ServerError;
use microhttp::text::u64_to_dec;

#[test]
fn default_endpoint_is_loopback_8080() {
    let ep = default_endpoint();
    assert_eq!((ep.a, ep.b, ep.c, ep.d, ep.port), (127, 0, 0, 1, 8080));
}

#[test]
fn addr_u32_packs_octets_most_significant_first() {
    assert_eq!(default_endpoint().addr_u32(), 0x7f000001);
    assert_eq!(Ipv4Endpoint::new(192, 168, 1, 10, 80).addr_u32(), 0xc0a8010a);
    assert_eq!(Ipv4Endpoint::new(255, 255, 255, 255, 0).addr_u32(), 0xffffffff);
    assert_eq!(Ipv4Endpoint::new(0, 0, 0, 0, 0).addr_u32(), 0);
}

#[test]
fn ipv4_endpoint_is_admitted() {
    let ep = Ipv4Endpoint::new(10, 0, 0, 1, 9000);
    assert_eq!(require_ipv4(Some(ep)), Ok(ep));
}

#[test]
fn non_ipv4_endpoint_is_unsupported() {
    assert_eq!(require_ipv4(None), Err(ServerError::UnsupportedAddressFamily));
}

#[test]
fn decimal_formatting_is_exact() {
    assert_eq!(u64_to_dec(0), "0");
    assert_eq!(u64_to_dec(7), "7");
    assert_eq!(u64_to_dec(10), "10");
    assert_eq!(u64_to_dec(108), "108");
    assert_eq!(u64_to_dec(65535), "65535");
    assert_eq!(u64_to_dec(u64::MAX), "18446744073709551615");
}
