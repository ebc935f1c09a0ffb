use cftun::config::{new_tunnel, tunnel_config};
use cftun::dialog::Check;
use cftun::error::Error;

#[test]
fn config_forwards_one_host_and_refuses_the_rest() {
    let c = tunnel_config("/home/me", "id-1", "hook.example.com", "http://localhost:3000");
    assert_eq!(c.tunnel, "id-1");
    assert_eq!(c.credentials_file, "/home/me/.cloudflared/id-1.json");
    assert_eq!(c.ingress.len(), 2);
    assert_eq!(c.ingress[0].hostname, "hook.example.com");
    assert_eq!(c.ingress[0].service, "http://localhost:3000");
    assert_eq!(c.ingress[1].hostname, "");
    assert_eq!(c.ingress[1].service, "http_status:404");
}

#[test]
fn new_tunnel_is_noted_with_its_url_and_path() {
    let t = new_tunnel("/home/me", "hook", "id-1", "hook.example.com", "8443");
    assert_eq!(t.uuid, "id-1");
    assert_eq!(t.hostname, "hook.example.com");
    assert_eq!(t.service, "https://localhost:8443");
    assert_eq!(t.config_path, "/home/me/.cloudflared/cftun/hook.yaml");
}

#[test]
fn names_are_checked() {
    let check = Check::NewName {
        managed: vec!["mine".to_string(), "both".to_string()],
        listed: vec!["theirs".to_string(), "both".to_string()],
        home: "/h".to_string(),
    };
    let verdict = |s: &str| check.verdict(s).err();
    assert_eq!(verdict("new"), None);
    assert_eq!(verdict(" tunnels"), None);
    assert_eq!(verdict("tunnels "), None);
    let reserved = Some("Reserved for the metadata of cftun".to_string());
    assert_eq!(verdict("tunnels"), reserved);
    assert_eq!(verdict("/h/.cloudflared/cftun/tunnels"), reserved);
    assert_eq!(verdict(" new "), None);
    assert_eq!(verdict(""), Some("Name is required".to_string()));
    assert_eq!(verdict(" \t"), Some("Name is required".to_string()));
    assert_eq!(verdict(" mine"), Some("Already managed by cftun".to_string()));
    assert_eq!(verdict("both"), Some("Already managed by cftun".to_string()));
    assert_eq!(
        verdict("theirs"),
        Some("Exists in cloudflared — import it instead".to_string())
    );
}

#[test]
fn hostnames_are_checked() {
    let verdict = |s: &str| Check::Hostname.verdict(s).err();
    assert_eq!(verdict("hook.example.com"), None);
    assert_eq!(verdict("."), None);
    assert_eq!(verdict(" "), Some("Hostname is required".to_string()));
    assert_eq!(verdict("localhost"), Some("Must be a valid domain name".to_string()));
}

#[test]
fn anything_goes_for_a_service() {
    assert_eq!(Check::Anything.verdict(""), Ok(()));
    assert_eq!(Check::Anything.verdict("x"), Ok(()));
}

#[test]
fn errors_say_what_to_do() {
    let name = || "x".to_string();
    let cases = vec![
        (
            Error::TunnelExists { name: name() },
            "a cloudflared tunnel named 'x' already exists. pick a different name or import it with `cftun import x <hostname> <port/url>`",
        ),
        (
            Error::NameInUse { name: name() },
            "tunnel 'x' already exists in cftun. run `cftun list` to see it",
        ),
        (
            Error::ReservedName { name: name() },
            "the name 'x' is reserved: its config would replace the metadata of cftun. pick a different name",
        ),
        (
            Error::ConfigInUse { name: name() },
            "the name 'x' is taken: its config would replace that of another tunnel. pick a different name",
        ),
        (Error::AlreadyManaged { name: name() }, "tunnel 'x' is already managed by cftun"),
        (
            Error::NoSuchTunnel { name: name() },
            "no cloudflared tunnel named 'x' found. run `cftun list` to see existing tunnels",
        ),
        (
            Error::NotFound { name: name() },
            "tunnel 'x' not found. run `cftun list` to see available tunnels (or import it with `cftun import <name> <hostname> <port/url>`)",
        ),
        (
            Error::NotInMetadata { name: name() },
            "tunnel 'x' not found in cftun metadata. run `cftun list` to see available tunnels (or import it with `cftun import x <hostname> <port/url>`)",
        ),
        (Error::NoTunnels, "no tunnels managed by cftun. create one with `cftun create`"),
        (Error::NothingToUpdate, "provide at least one of --hostname or --local"),
        (Error::UuidNotFound, "could not parse tunnel UUID from cloudflared output"),
        (
            Error::CommandFailed {
                command: "tunnel list".to_string(),
                status: "exit status: 2".to_string(),
                stdout: "o".to_string(),
                stderr: "e".to_string(),
            },
            "cloudflared tunnel list failed (exit status: 2):\nstdout: o\nstderr: e",
        ),
        (Error::ListFailed { stderr: "e".to_string() }, "cloudflared tunnel list failed: e"),
        (
            Error::Exited { status: "exit status: 3".to_string() },
            "cloudflared exited with exit status: 3",
        ),
    ];
    for (error, message) in cases {
        assert_eq!(error.message(), message);
    }
}
