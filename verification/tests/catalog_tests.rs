use audio_core::catalog::{
    contains_substr, has_loopback_signature, list_devices, list_loopback_devices,
    list_loopback_devices_unsupported,
};

#[test]
fn substring_search_finds_and_rejects() {
    assert!(contains_substr("BlackHole 2ch", "BlackHole"));
    assert!(contains_substr("abc", ""));
    assert!(contains_substr("abc", "abc"));
    assert!(!contains_substr("abc", "abcd"));
    assert!(!contains_substr("Built-in Microphone", "BlackHole"));
    assert!(contains_substr("aaab", "aab"));
}

#[test]
fn loopback_signatures_recognized() {
    assert!(has_loopback_signature("BlackHole 2ch"));
    assert!(has_loopback_signature("Soundflower (2ch)"));
    assert!(has_loopback_signature("VB-Audio Virtual Cable"));
    assert!(has_loopback_signature("Loopback Audio"));
    assert!(!has_loopback_signature("Built-in Output"));
}

#[test]
fn one_default_input_and_one_output() {
    let inputs = vec!["Mic A".to_string()];
    let outputs = vec!["Speaker B".to_string()];
    let devices = list_devices(
        &inputs,
        &outputs,
        &Some("Mic A".to_string()),
        &Some("Speaker B".to_string()),
    );
    assert_eq!(devices.len(), 2);
    assert_eq!(devices[0].name, "Mic A");
    assert_eq!(devices[0].device_type, "input");
    assert!(devices[0].is_default);
    assert_eq!(devices[1].name, "Speaker B");
    assert_eq!(devices[1].device_type, "output");
}

#[test]
fn non_default_devices_tagged_false() {
    let inputs = vec!["Mic A".to_string(), "Mic B".to_string()];
    let outputs = vec!["Out".to_string()];
    let devices = list_devices(&inputs, &outputs, &Some("Mic B".to_string()), &None);
    assert_eq!(devices.len(), 3);
    assert!(!devices[0].is_default);
    assert!(devices[1].is_default);
    assert!(!devices[2].is_default);
}

#[test]
fn no_loopback_device_yields_one_guidance_entry() {
    let inputs = vec!["Mic A".to_string(), "USB Microphone".to_string()];
    let devices = list_loopback_devices(&inputs);
    assert_eq!(devices.len(), 1);
    assert_eq!(devices[0].name, "No system audio devices found - Install BlackHole");
    assert_eq!(devices[0].device_type, "instruction");
    assert!(!devices[0].is_default);
}

#[test]
fn loopback_devices_filtered_in_order() {
    let inputs = vec![
        "Mic A".to_string(),
        "BlackHole 2ch".to_string(),
        "Soundflower (64ch)".to_string(),
    ];
    let devices = list_loopback_devices(&inputs);
    assert_eq!(devices.len(), 2);
    assert_eq!(devices[0].name, "BlackHole 2ch");
    assert_eq!(devices[0].device_type, "system_output");
    assert_eq!(devices[1].name, "Soundflower (64ch)");
}

#[test]
fn unsupported_platform_reports_one_entry() {
    let devices = list_loopback_devices_unsupported();
    assert_eq!(devices.len(), 1);
    assert_eq!(devices[0].name, "System audio capture not supported on this platform");
    assert_eq!(devices[0].device_type, "error");
}

#[test]
fn empty_enumeration_gives_empty_catalog() {
    let devices = list_devices(&vec![], &vec![], &None, &None);
    assert!(devices.is_empty());
}
