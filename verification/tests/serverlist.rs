//! Server directory behavior: abbreviations, aliasing, and socket lookups.

use realmpipe::serverlist::{abbreviate, abbreviate_server_name, ServerList, GAME_PORT};

#[test]
fn abbreviations() {
    assert_eq!(&abbreviate("USEast"), "use");
    assert_eq!(&abbreviate("AsiaSouthEast"), "asse");
    assert_eq!(&abbreviate("USSouth"), "uss");
    assert_eq!(&abbreviate("USSouthWest"), "ussw");
    assert_eq!(&abbreviate("USEast2"), "use2");
    assert_eq!(&abbreviate("USNorthWest"), "usnw");
    assert_eq!(&abbreviate("AsiaEast"), "ase");
    assert_eq!(&abbreviate("EUSouthWest"), "eusw");
    assert_eq!(&abbreviate("USSouth2"), "uss2");
    assert_eq!(&abbreviate("EUNorth2"), "eun2");
    assert_eq!(&abbreviate("EUSouth"), "eus");
    assert_eq!(&abbreviate("USSouth3"), "uss3");
    assert_eq!(&abbreviate("EUWest2"), "euw2");
    assert_eq!(&abbreviate("USMidWest"), "usmw");
    assert_eq!(&abbreviate("EUWest"), "euw");
    assert_eq!(&abbreviate("USEast3"), "use3");
    assert_eq!(&abbreviate("USWest"), "usw");
    assert_eq!(&abbreviate("USWest3"), "usw3");
    assert_eq!(&abbreviate("USMidWest2"), "usmw2");
    assert_eq!(&abbreviate("EUEast"), "eue");
    assert_eq!(&abbreviate("Australia"), "aus");
    assert_eq!(&abbreviate_server_name("USEast"), "use");
    assert_eq!(&abbreviate_server_name("Australia"), "aus");
}

fn list(pairs: &[(&str, &str)]) -> ServerList {
    let v: Vec<(String, String)> = pairs
        .iter()
        .map(|(n, ip)| (n.to_string(), ip.to_string()))
        .collect();
    ServerList::new(&v)
}

#[test]
fn directory_aliasing() {
    let sl = list(&[("USEast", "1.2.3.4")]);
    assert_eq!(sl.get_ip("useast"), Some("1.2.3.4".to_string()));
    assert_eq!(sl.get_ip("use"), Some("1.2.3.4".to_string()));
    assert_eq!(sl.get_ip("USEast"), None);
    let sock = sl.get_socket("useast").expect("present");
    assert_eq!(sock.ip, "1.2.3.4");
    assert_eq!(sock.port, GAME_PORT);
    assert_eq!(sock.port, 2050);
}

#[test]
fn three_servers() {
    let sl = list(&[
        ("USEast", "10.0.0.1"),
        ("AsiaSouthEast", "10.0.0.2"),
        ("Australia", "10.0.0.3"),
    ]);
    assert_eq!(sl.get_ip("use"), Some("10.0.0.1".to_string()));
    assert_eq!(sl.get_ip("asse"), Some("10.0.0.2".to_string()));
    assert_eq!(sl.get_ip("aus"), Some("10.0.0.3".to_string()));
    assert_eq!(sl.get_ip("useast"), Some("10.0.0.1".to_string()));
    assert_eq!(sl.get_ip("asiasoutheast"), Some("10.0.0.2".to_string()));
    assert_eq!(sl.get_ip("australia"), Some("10.0.0.3".to_string()));
    assert_eq!(sl.get_ip("nowhere"), None);
}

#[test]
fn alias_does_not_overwrite() {
    // the second server's alias collides with the first server's name:
    // the existing binding wins
    let sl = list(&[("use", "10.0.0.9"), ("USEast", "10.0.0.1")]);
    assert_eq!(sl.get_ip("use"), Some("10.0.0.9".to_string()));
    assert_eq!(sl.get_ip("useast"), Some("10.0.0.1".to_string()));
}
