use cftun::paths::{
    cftun_dir, config_path, credentials_file, join_path, metadata_path, name_reserved,
};
use std::path::Path;

#[test]
fn files_are_under_home() {
    assert_eq!(cftun_dir("/home/me"), "/home/me/.cloudflared/cftun");
    assert_eq!(metadata_path("/home/me"), "/home/me/.cloudflared/cftun/tunnels.yaml");
    assert_eq!(config_path("/home/me", "hook"), "/home/me/.cloudflared/cftun/hook.yaml");
    assert_eq!(credentials_file("/home/me", "id-1"), "/home/me/.cloudflared/id-1.json");
}

#[test]
fn a_separator_is_not_doubled() {
    assert_eq!(metadata_path("/"), "/.cloudflared/cftun/tunnels.yaml");
    assert_eq!(metadata_path("/root/"), "/root/.cloudflared/cftun/tunnels.yaml");
    assert_eq!(metadata_path(""), ".cloudflared/cftun/tunnels.yaml");
}

#[test]
fn an_absolute_name_is_a_path_of_its_own() {
    assert_eq!(config_path("/home/me", "/etc/x"), "/etc/x.yaml");
    assert_eq!(config_path("/home/me", "../x"), "/home/me/.cloudflared/cftun/../x.yaml");
}

#[test]
fn paths_join_as_on_unix() {
    for dir in ["", "/", "a", "a/", "/a/b", "/a/b/", "é"] {
        for part in ["", "/", "b", "b/c", "/b", ".", "..", "é.yaml"] {
            let expected = Path::new(dir).join(part);
            assert_eq!(join_path(dir, part), expected.to_str().unwrap(), "{dir} {part}");
        }
    }
}

#[test]
fn each_tunnel_has_its_own_config() {
    let names = ["a", "b", "a.yaml", "", "a/b", " a"];
    for a in names {
        for b in names {
            assert_eq!(config_path("/h", a) == config_path("/h", b), a == b);
        }
        assert_ne!(config_path("/h", a), metadata_path("/h"));
    }
}

#[test]
fn names_of_the_metadata_are_reserved() {
    assert!(name_reserved("/h", "tunnels"));
    assert!(name_reserved("/h", "/h/.cloudflared/cftun/tunnels"));
    assert!(!name_reserved("/h", "/g/.cloudflared/cftun/tunnels"));
    assert!(!name_reserved("/h", "Tunnels"));
    assert!(!name_reserved("/h", "tunnels.yaml"));
    assert!(!name_reserved("/h", ""));
}

#[test]
fn a_name_can_spell_the_path_of_another() {
    assert_eq!(config_path("/h", "/h/.cloudflared/cftun/a"), config_path("/h", "a"));
}
