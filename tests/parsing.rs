use wifi_gate::parse::{
    active_ssid, confirms_activation, confirms_disconnect, network_entries, radio_enabled,
    text_contains, wifi_device,
};

#[test]
fn radio_state_is_read_without_blanks() {
    assert!(radio_enabled("enabled\n"));
    assert!(radio_enabled("  en abled \n"));
    assert!(!radio_enabled("disabled\n"));
    assert!(!radio_enabled(""));
}

#[test]
fn active_network_is_the_first_marked_line() {
    let out = "no:Home\nyes:Cafe\nyes:Other\n";
    assert_eq!(active_ssid(out), Some("Cafe".to_string()));
    assert_eq!(active_ssid("no:Home\nno:Cafe\n"), None);
    assert_eq!(active_ssid(""), None);
    assert_eq!(active_ssid("yes:"), Some(String::new()));
    assert_eq!(active_ssid("no:x\nyes:Café Ø"), Some("Café Ø".to_string()));
    assert_eq!(active_ssid("ye\nyes"), None);
}

#[test]
fn wireless_device_is_found() {
    let out = "lo:loopback\neth0:ethernet\nwlan0:wifi\nwlan1:wifi\n";
    assert_eq!(wifi_device(out), Some("wlan0".to_string()));
    assert_eq!(wifi_device("lo:loopback\n"), None);
    assert_eq!(wifi_device(":wifi"), Some(String::new()));
}

#[test]
fn command_confirmations() {
    assert!(confirms_disconnect("Device 'wlan0' successfully disconnected.\n"));
    assert!(!confirms_disconnect("Error: no device.\n"));
    assert!(confirms_activation("Device 'wlan0' successfully activated with 'x'.\n"));
    assert!(!confirms_activation("Error: Connection activation failed.\n"));
    assert!(text_contains("abc", ""));
    assert!(!text_contains("", "a"));
}

#[test]
fn open_networks_have_no_security() {
    let found = vec![
        ("Cafe".to_string(), String::new()),
        ("Home".to_string(), "WPA2".to_string()),
    ];
    assert_eq!(
        network_entries(&found),
        vec![("Cafe".to_string(), true), ("Home".to_string(), false)]
    );
}
