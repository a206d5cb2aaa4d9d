//! The link control plane: disabled tags steer future link selection.

use agg_tunnel::links::{ConnectorLinks, LinkTag, TagSet, TransportKind};

fn tag(kind: TransportKind, id: u64) -> LinkTag {
    LinkTag { kind, id }
}

fn all_tags() -> TagSet {
    let mut tags = TagSet::new();
    tags.insert(tag(TransportKind::Tcp, 1));
    tags.insert(tag(TransportKind::Tcp, 2));
    tags.insert(tag(TransportKind::Rfcomm, 1));
    tags
}

#[test]
fn tag_set_membership() {
    let tags = all_tags();
    assert!(tags.contains(tag(TransportKind::Tcp, 1)));
    assert!(tags.contains(tag(TransportKind::Rfcomm, 1)));
    assert!(!tags.contains(tag(TransportKind::Usb, 1)));
    assert!(!tags.contains(tag(TransportKind::Tcp, 3)));
}

#[test]
fn inserting_twice_changes_nothing() {
    let mut tags = TagSet::new();
    tags.insert(tag(TransportKind::Tcp, 1));
    tags.insert(tag(TransportKind::Tcp, 1));
    assert!(tags.contains(tag(TransportKind::Tcp, 1)));
    assert!(!tags.contains(tag(TransportKind::Tcp, 2)));
}

#[test]
fn disabled_tags_exclude_future_selection() {
    let mut links = ConnectorLinks::new();
    links.set_available_tags(all_tags());
    assert!(links.selectable(tag(TransportKind::Tcp, 1)));

    let mut disabled = TagSet::new();
    disabled.insert(tag(TransportKind::Tcp, 1));
    links.set_disabled_tags(disabled);
    assert!(!links.selectable(tag(TransportKind::Tcp, 1)));
    assert!(links.selectable(tag(TransportKind::Tcp, 2)));
    assert!(links.selectable(tag(TransportKind::Rfcomm, 1)));
}

#[test]
fn applying_the_same_set_twice_has_no_further_effect() {
    let mut links = ConnectorLinks::new();
    links.set_available_tags(all_tags());
    let mut disabled = TagSet::new();
    disabled.insert(tag(TransportKind::Tcp, 2));

    links.set_disabled_tags(disabled.clone());
    let after_once: Vec<bool> = observable(&links);
    links.set_disabled_tags(disabled);
    let after_twice: Vec<bool> = observable(&links);
    assert_eq!(after_once, after_twice);
}

/// Everything a consumer can observe of the selection state, for the
/// tags the tests use.
fn observable(links: &ConnectorLinks) -> Vec<bool> {
    let mut seen = Vec::new();
    for kind in [TransportKind::Tcp, TransportKind::Rfcomm, TransportKind::Usb] {
        for id in 1..4 {
            seen.push(links.selectable(tag(kind, id)));
        }
    }
    seen
}

#[test]
fn disabling_a_whole_transport_excludes_it() {
    let mut links = ConnectorLinks::new();
    links.set_available_tags(all_tags());

    // Disable every available TCP path mid-session.
    let mut disabled = TagSet::new();
    disabled.insert(tag(TransportKind::Tcp, 1));
    disabled.insert(tag(TransportKind::Tcp, 2));
    links.set_disabled_tags(disabled);

    // No subsequent attempt may pick a TCP path...
    assert!(!links.selectable(tag(TransportKind::Tcp, 1)));
    assert!(!links.selectable(tag(TransportKind::Tcp, 2)));
    // ...while other transports stay selectable.
    assert!(links.selectable(tag(TransportKind::Rfcomm, 1)));

    // A connection already forwarding over TCP is not torn down by the
    // control plane: its forwarding run does not read the selection
    // state at all.
    let actions = agg_tunnel::forward::forward_run(vec![agg_tunnel::forward::ReadEvent {
        timer_fired: false,
        data: b"still flowing".to_vec(),
    }]);
    let mut out = Vec::new();
    for action in &actions {
        if let agg_tunnel::forward::IoAction::Write(chunk) = action {
            out.extend_from_slice(chunk);
        }
    }
    assert_eq!(out, b"still flowing");
}
