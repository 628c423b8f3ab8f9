use remote_session::assets::{asset_filename, asset_relative_path, is_orphan_asset, AssetError};
use remote_session::bootstrap::{connection_url, is_lan_ip, pick_lan_ip, server_ports, DEFAULT_REMOTE_PORT};

#[test]
fn ports_sit_side_by_side() {
    assert_eq!(DEFAULT_REMOTE_PORT, 8765);
    let (http, ws) = server_ports(8765);
    assert_eq!(http, 8765);
    assert_eq!(ws, 8766);
}

#[test]
fn lan_addresses_are_recognized() {
    assert!(is_lan_ip(b"192.168.1.20"));
    assert!(is_lan_ip(b"10.0.0.7"));
    assert!(is_lan_ip(b"172.16.4.1"));
    assert!(!is_lan_ip(b"127.0.0.1"));
    assert!(!is_lan_ip(b"8.8.8.8"));
    assert!(!is_lan_ip(b"::1"));
}

#[test]
fn first_lan_address_wins() {
    let ips: Vec<Vec<u8>> = vec![
        b"127.0.0.1".to_vec(),
        b"8.8.8.8".to_vec(),
        b"10.1.2.3".to_vec(),
        b"192.168.0.2".to_vec(),
    ];
    assert_eq!(pick_lan_ip(&ips), Some(2));
    let none: Vec<Vec<u8>> = vec![b"127.0.0.1".to_vec()];
    assert_eq!(pick_lan_ip(&none), None);
}

#[test]
fn url_is_assembled_exactly() {
    let url = connection_url(b"192.168.1.20", 8765);
    assert_eq!(String::from_utf8(url).unwrap(), "http://192.168.1.20:8765");
}

#[test]
fn asset_names_carry_the_digest() {
    // the SHA-256 of "abc" is a published value: a wrapper handing its
    // input back unchanged could never produce it
    let name = asset_filename(&b"abc".to_vec(), "PNG").unwrap();
    assert_eq!(
        String::from_utf8(name).unwrap(),
        "ba7816bf8f01cfea414140de5dae2223b00361a396177a9cb410ff61f20015ad.png"
    );
}

#[test]
fn extension_is_cleaned() {
    let a = asset_filename(&b"x".to_vec(), ".JPeG").unwrap();
    assert!(String::from_utf8(a).unwrap().ends_with(".jpeg"));
    assert_eq!(asset_filename(&b"x".to_vec(), "..."), Err(AssetError::InvalidExtension));
    assert_eq!(asset_filename(&b"x".to_vec(), ""), Err(AssetError::InvalidExtension));
}

#[test]
fn empty_assets_are_refused() {
    assert_eq!(asset_filename(&Vec::new(), "png"), Err(AssetError::EmptyAsset));
}

#[test]
fn orphans_are_exactly_the_unused_files() {
    let active: Vec<Vec<u8>> = vec![
        b"global_assets/keep.png".to_vec(),
        b"global_assets/also.gif".to_vec(),
    ];
    assert!(!is_orphan_asset(b"keep.png", &active));
    assert!(!is_orphan_asset(b"also.gif", &active));
    assert!(is_orphan_asset(b"gone.png", &active));
    assert!(is_orphan_asset(b"keep.png.bak", &active));
    assert_eq!(
        String::from_utf8(asset_relative_path(b"keep.png")).unwrap(),
        "global_assets/keep.png"
    );
}
