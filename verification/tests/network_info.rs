use couch_gui::network_info::{
    current, dotted, gateway_of, named_servers, nameservers, peer, prefix_of, Info,
};
use couch_gui::text::ipv4;

const TABLE: &str =
    "Iface\tDestination\tGateway \tFlags\tRefCnt\tUse\tMetric\tMask\t\tMTU\tWindow\tIRTT\n\
wlan0\t00000000\t0101A8C0\t0003\t0\t0\t0\t00000000\t0\t0\t0\n\
wlan0\t0001A8C0\t00000000\t0001\t0\t0\t0\t00FFFFFF\t0\t0\t0\n\
ap0\t000A0A0A\t00000000\t0001\t0\t0\t0\t00FFFFFF\t0\t0\t0\n";

#[test]
fn route_table_yields_the_gateway_and_prefix_of_the_wifi_interface() {
    assert_eq!(gateway_of(TABLE, "wlan0"), ipv4("192.168.1.1"));
    assert_eq!(prefix_of(TABLE, "wlan0"), Some(24));
    assert_eq!(gateway_of(TABLE, "ap0"), None);
    assert_eq!(prefix_of(TABLE, "eth0"), None);
    assert_eq!(gateway_of("Iface\tDestination\n", "wlan0"), None);
    assert_eq!(gateway_of("wlan0\tjunk\n", "wlan0"), None);
}

fn servers(resolv: &str) -> Vec<String> {
    let named = named_servers(resolv);
    let valid: Vec<bool> = named.iter().map(|s| ipv4(s).is_some()).collect();
    nameservers(&named, &valid)
}

#[test]
fn nameservers_keep_order_skip_junk_and_stop_at_two() {
    let resolv = "# generated\nsearch lan\nnameserver 192.168.1.1\nnameserver not-an-address\nnameserver 1.1.1.1\nnameserver 8.8.8.8\n";
    assert_eq!(servers(resolv), ["192.168.1.1", "1.1.1.1"]);
    assert!(servers("").is_empty());
}

#[test]
fn web_row_names_the_mdns_host_and_the_address_when_known() {
    let mut info = Info::default();
    assert_eq!(info.web(), "http://couch.local");
    info.address = "192.168.1.127 /24".to_string();
    assert_eq!(info.web(), "http://couch.local  ·  192.168.1.127:8090");
}

#[test]
fn addresses_are_written_and_read_as_dotted_numbers() {
    assert_eq!(dotted(0xC0A8_0101), "192.168.1.1");
    assert_eq!(ipv4("255.255.255.255"), Some(u32::MAX));
    for text in ["", "1.2.3", "1.2.3.4.5", "01.2.3.4", "256.1.1.1", "1..2.3", "+1.2.3.4"] {
        assert_eq!(ipv4(text), None, "{text}");
    }
    assert_eq!(peer(None), 0xC000_0201);
    assert_eq!(peer(Some(7)), 7);
}

#[test]
fn the_network_page_lists_what_is_known() {
    let listed = vec!["192.168.1.1".to_string(), "1.1.1.1".to_string()];
    let info = current(TABLE, ipv4("192.168.1.127"), &listed, "aa:bb:cc:dd:ee:ff");
    assert_eq!(info.address, "192.168.1.127 /24");
    assert_eq!(info.gateway, "192.168.1.1");
    assert_eq!(info.dns, "192.168.1.1, 1.1.1.1");
}
