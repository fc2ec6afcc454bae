use tunnel_lifecycle::tags::{
    new_tunnel_tags, protocol_version_tag, renamed_tunnel_tags, update_version_tag,
};

fn strings(items: &[&str]) -> Vec<String> {
    items.iter().map(|s| s.to_string()).collect()
}

#[test]
fn the_version_tag_is_the_prefix_and_the_number() {
    assert_eq!(protocol_version_tag(1), "pv=1");
    assert_eq!(protocol_version_tag(42), "pv=42");
    assert_eq!(protocol_version_tag(0), "pv=0");
}

#[test]
fn a_new_tunnel_gets_its_name_its_version_and_the_application() {
    assert_eq!(
        new_tunnel_tags("dev", 3),
        strings(&["dev", "pv=3", "vscode-server-launcher"])
    );
}

#[test]
fn a_renamed_tunnel_gets_its_name_and_the_application() {
    assert_eq!(
        renamed_tunnel_tags("new"),
        strings(&["new", "vscode-server-launcher"])
    );
}

#[test]
fn older_version_tags_give_way_to_the_current_one() {
    let tags = strings(&["dev", "pv=1", "vscode-server-launcher", "pv=2", "pv="]);
    assert_eq!(
        update_version_tag(&tags, 4),
        strings(&["dev", "vscode-server-launcher", "pv=4"])
    );
}

#[test]
fn the_current_version_tag_is_kept_once() {
    let tags = strings(&["pv=4", "dev", "pv=4"]);
    let updated = update_version_tag(&tags, 4);
    assert_eq!(updated, strings(&["dev", "pv=4"]));
    assert_eq!(updated.iter().filter(|t| t.starts_with("pv=")).count(), 1);
}

#[test]
fn tags_that_only_hold_the_prefix_inside_stay() {
    let tags = strings(&["xpv=1", "pv", "PV=1"]);
    assert_eq!(
        update_version_tag(&tags, 2),
        strings(&["xpv=1", "pv", "PV=1", "pv=2"])
    );
}

#[test]
fn a_tunnel_without_tags_gets_the_version_tag() {
    assert_eq!(update_version_tag(&Vec::new(), 9), strings(&["pv=9"]));
}
