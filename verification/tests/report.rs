use cftun::cloudflared::CloudflaredTunnel;
use cftun::dialog::{Notice, Request, Span, Style};
use cftun::error::Error;
use cftun::metadata::{Metadata, TunnelMeta};
use cftun::report::{list_report, name_listed, online, status_report, tunnel_select_prompt};

/// Text with the style in front of it, in angle brackets.
fn marked(spans: &[Span]) -> String {
    spans
        .iter()
        .map(|s| match s.style {
            Style::Plain => s.text.clone(),
            Style::Bold => format!("<b {}>", s.text),
            Style::Dimmed => format!("<d {}>", s.text),
            Style::Green => format!("<g {}>", s.text),
            Style::GreenBold => format!("<gb {}>", s.text),
            Style::GreenUnderlined => format!("<gu {}>", s.text),
            Style::Cyan => format!("<c {}>", s.text),
        })
        .collect()
}

fn report_lines(notices: &[Notice]) -> Vec<String> {
    notices
        .iter()
        .map(|n| match n {
            Notice::Line(spans) => marked(spans),
            other => format!("{other:?}"),
        })
        .collect()
}

fn listed(id: &str, name: &str, connections: usize) -> CloudflaredTunnel {
    CloudflaredTunnel {
        id: id.to_string(),
        name: name.to_string(),
        created_at: format!("at-{id}"),
        connections,
    }
}

fn managed(entries: &[(&str, &str)]) -> Metadata {
    let mut m = Metadata::new();
    for (name, uuid) in entries {
        m.insert(
            name.to_string(),
            TunnelMeta {
                uuid: uuid.to_string(),
                hostname: format!("{name}.example.com"),
                service: "http://localhost:3000".to_string(),
                config_path: format!("/c/{name}.yaml"),
            },
        );
    }
    m
}

#[test]
fn empty_list() {
    assert_eq!(
        report_lines(&list_report(&vec![], &Metadata::new())),
        [
            "<c ●> Tunnels managed by cftun:",
            "  (none)",
            "",
            "  Create one with: <c cftun create>",
        ]
    );
}

#[test]
fn list_of_managed_and_other_tunnels() {
    let cf = vec![
        listed("1", "web", 2),
        listed("2", "api", 0),
        listed("3", "zoo", 1),
        listed("4", "old", 0),
    ];
    let m = managed(&[("web", "1"), ("api", "2"), ("gone", "9")]);
    assert_eq!(
        report_lines(&list_report(&cf, &m)),
        [
            "<c ●> Tunnels managed by cftun:",
            "  <c •> <b api> → <g https://api.example.com> (<d http://localhost:3000>) [<d offline>]",
            "  <c •> <b gone> → <g https://gone.example.com> (<d http://localhost:3000>) [<d offline>]",
            "  <c •> <b web> → <g https://web.example.com> (<d http://localhost:3000>) [<g online>]",
            "",
            "<c ●> Other cloudflared tunnels:",
            "  <c •> <b zoo> (<d 3>) [<g online>]",
            "  <c •> <b old> (<d 4>) [<d offline>]",
            "",
            "  Create one with: <c cftun create>",
            "  Or adopt an existing tunnel with: <c cftun import <name> <hostname> <port/url>>",
        ]
    );
}

#[test]
fn list_without_others_has_no_second_part() {
    let report = list_report(&vec![listed("5", "web", 0)], &managed(&[("web", "1")]));
    assert_eq!(report_lines(&report).len(), 4);
}

#[test]
fn online_goes_by_id_and_other_by_name() {
    let cf = vec![listed("1", "renamed", 1)];
    let m = managed(&[("web", "1")]);
    let lines = report_lines(&list_report(&cf, &m));
    assert!(lines[1].ends_with("[<g online>]"));
    assert_eq!(lines[4], "  <c •> <b renamed> (<d 1>) [<g online>]");
}

#[test]
fn listing_is_looked_up() {
    let cf = vec![listed("1", "a", 0), listed("1", "b", 3), listed("2", "c", 0)];
    assert!(online(&cf, &"1".to_string()));
    assert!(!online(&cf, &"2".to_string()));
    assert!(!online(&cf, &"a".to_string()));
    assert!(name_listed(&cf, &"c".to_string()));
    assert!(!name_listed(&cf, &"2".to_string()));
}

#[test]
fn status_of_all_tunnels() {
    let cf = vec![listed("1", "web", 12), listed("2", "api", 0)];
    let m = managed(&[("web", "other id"), ("gone", "9"), ("more", "8")]);
    assert_eq!(
        report_lines(&status_report(&cf, &m)),
        [
            "<b Cloudflared tunnel status>",
            "  <d Total tunnels: >2",
            "  <d Managed by cftun: >3",
            "  <d Currently online: >1",
            "",
            "  <gb online> <b web> - <d 1>",
            "    <g https://web.example.com> → <d http://localhost:3000>",
            "    Created: <d at-1> | Connections: 12",
            "  <d offline> <b api> - <d 2>",
            "    Created: <d at-2> | Connections: 0",
        ]
    );
}

#[test]
fn tunnels_are_offered_in_order() {
    match tunnel_select_prompt("Pick", &managed(&[("b", "2"), ("a", "1")])) {
        Ok(Request::Select { message, search, choices }) => {
            assert_eq!(message, "Pick");
            assert!(search);
            assert_eq!(choices.len(), 2);
            assert_eq!(choices[0].value, "a");
            assert_eq!(
                marked(&choices[0].label),
                "<b a>  https://a.example.com  <d http://localhost:3000>"
            );
            assert_eq!(choices[0].hint, "");
            assert_eq!(choices[1].value, "b");
        }
        other => panic!("{other:?}"),
    }
}

#[test]
fn nothing_is_offered_without_tunnels() {
    assert!(matches!(tunnel_select_prompt("Pick", &Metadata::new()), Err(Error::NoTunnels)));
}
