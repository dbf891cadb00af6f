use kioto::address::is_ipv4_address;

#[test]
fn dotted_quads_are_addresses() {
    for text in ["0.0.0.0", "127.0.0.1", "255.255.255.255", "192.168.0.2", "1.22.111.9"] {
        assert!(is_ipv4_address(text), "{}", text);
    }
}

#[test]
fn anything_else_is_none() {
    for text in [
        "", ".", "...", "1.2.3", "1.2.3.4.5", "1.2.3.", ".1.2.3", "1..2.3", "256.1.1.1",
        "1.1.1.256", "01.2.3.4", "1.2.3.04", "00.0.0.0", "1.2.3.4 ", " 1.2.3.4", "1.2.3.a",
        "1.2.3.-4", "1.2.3.+4", "1111.1.1.1", "1.2.3.4:80", "someroom", "١.٢.٣.٤", "1.2.3.4\n",
        "999.999.999.999", "1.2.3.0004",
    ] {
        assert!(!is_ipv4_address(text), "{:?}", text);
    }
}

#[test]
fn every_byte_is_accepted_in_every_place() {
    for byte in 0..=255u32 {
        assert!(is_ipv4_address(&format!("{}.1.1.1", byte)));
        assert!(is_ipv4_address(&format!("1.{}.1.1", byte)));
        assert!(is_ipv4_address(&format!("1.1.{}.1", byte)));
        assert!(is_ipv4_address(&format!("1.1.1.{}", byte)));
    }
    for more in 256..=1300u32 {
        assert!(!is_ipv4_address(&format!("{}.1.1.1", more)));
        assert!(!is_ipv4_address(&format!("1.1.1.{}", more)));
    }
}
