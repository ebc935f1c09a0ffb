use cftun::metadata::{Metadata, TunnelMeta};
use std::collections::BTreeMap;

fn tunnel(n: u32) -> TunnelMeta {
    TunnelMeta {
        uuid: format!("id-{n}"),
        hostname: format!("h{n}.example.com"),
        service: format!("http://localhost:{n}"),
        config_path: format!("/c/{n}.yaml"),
    }
}

fn same(a: &TunnelMeta, b: &TunnelMeta) -> bool {
    a.uuid == b.uuid
        && a.hostname == b.hostname
        && a.service == b.service
        && a.config_path == b.config_path
}

fn agree(metadata: &Metadata, expected: &BTreeMap<String, TunnelMeta>) {
    assert_eq!(metadata.len(), expected.len());
    assert_eq!(metadata.is_empty(), expected.is_empty());
    assert_eq!(metadata.names(), expected.keys().cloned().collect::<Vec<String>>());
    for (name, t) in expected {
        assert!(metadata.contains_key(name));
        assert!(same(metadata.get(name).unwrap(), t));
        assert!(metadata.has_config_at(&t.config_path));
    }
    assert!(!metadata.contains_key("not there"));
    assert!(metadata.get("not there").is_none());
    assert!(!metadata.has_config_at(&"/c/none.yaml".to_string()));
}

#[test]
fn metadata_starts_empty() {
    agree(&Metadata::new(), &BTreeMap::new());
    agree(&Metadata::default(), &BTreeMap::new());
}

#[test]
fn metadata_keeps_names_in_order() {
    let mut metadata = Metadata::new();
    let mut expected = BTreeMap::new();
    let names = ["m", "a", "z", "é", "ab", "", "A", "m", "\u{1F600}", "a", "b"];
    for (n, name) in names.iter().enumerate() {
        metadata.insert(name.to_string(), tunnel(n as u32));
        expected.insert(name.to_string(), tunnel(n as u32));
        agree(&metadata, &expected);
    }
    agree(&metadata.clone(), &expected);
    for name in ["a", "nobody", "\u{1F600}", "", "z", "z"] {
        metadata.remove(name);
        expected.remove(name);
        agree(&metadata, &expected);
    }
}

#[test]
fn a_clone_is_independent() {
    let mut metadata = Metadata::new();
    metadata.insert("a".to_string(), tunnel(1));
    let copy = metadata.clone();
    metadata.remove("a");
    assert!(metadata.is_empty());
    assert!(same(copy.get("a").unwrap(), &tunnel(1)));
}
