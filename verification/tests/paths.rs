use rclrust_msg_gen::msg_path::{AmentTree, MsgKind, MsgPath, MsgTree, PackageTree};
use rclrust_msg_gen::parser::error::{ErrorKind, RclMsgError};

fn path(text: &str) -> MsgPath {
    MsgPath::parse(text).unwrap()
}

#[test]
fn paths_are_parsed() {
    assert_eq!(path("*/*/*"), MsgPath::Wild);
    assert_eq!(path("pkg/*/*"), MsgPath::PkgWild { pkg: "pkg".into() });
    assert_eq!(path("pkg/msg/*"), MsgPath::PkgMsgWild { pkg: "pkg".into() });
    assert_eq!(path("pkg/srv/*"), MsgPath::PkgSrvWild { pkg: "pkg".into() });
    assert_eq!(path("pkg/action/*"), MsgPath::PkgActionWild { pkg: "pkg".into() });
    assert_eq!(
        path("pkg/msg/My_Msg1"),
        MsgPath::PkgMsgMsg { pkg: "pkg".into(), msg: "My_Msg1".into() }
    );
    assert_eq!(path("p2/srv/S"), MsgPath::PkgSrvMsg { pkg: "p2".into(), srv: "S".into() });
    assert_eq!(
        path("P/action/a"),
        MsgPath::PkgActionMsg { pkg: "P".into(), action: "a".into() }
    );
    assert_eq!(path("/msg/"), MsgPath::PkgMsgMsg { pkg: "".into(), msg: "".into() });
    assert_eq!("pkg/msg/*".parse::<MsgPath>(), Ok(MsgPath::PkgMsgWild { pkg: "pkg".into() }));
}

#[test]
fn paths_that_are_refused() {
    for text in [
        "", "*", "*/*", "*/*/*/*", "pkg", "pkg/msg", "pkg/msg/a/b", "*/msg/*", "*/*/Name",
        "*/msg/Name", "pkg/*/Name", "my_pkg/msg/*", "pkg/other/*", "pkg/msg/a-b", "pkg/Msg/*",
        "pkg/msg/**", "p.q/msg/*", "pkg /msg/*",
    ] {
        let e = MsgPath::parse(text).unwrap_err();
        assert_eq!(e, RclMsgError::InvalidMsgPath(text.to_string()));
        assert_eq!(e.kind(), ErrorKind::Grammar);
        assert!(text.parse::<MsgPath>().is_err());
    }
}

#[test]
fn values_are_found_from_the_widest_path_to_the_narrowest() {
    let mut tree: AmentTree<u32> = AmentTree::default();
    assert!(tree.get("pkg", MsgKind::Msg, "A").is_empty());
    tree.set(&path("pkg/msg/A"), 4);
    tree.set(&path("pkg/msg/*"), 3);
    tree.set(&path("pkg/*/*"), 2);
    tree.set(&path("*/*/*"), 1);
    tree.set(&path("pkg/srv/A"), 40);
    tree.set(&path("other/action/*"), 30);
    assert_eq!(tree.get("pkg", MsgKind::Msg, "A"), vec![&1, &2, &3, &4]);
    assert_eq!(tree.get("pkg", MsgKind::Msg, "B"), vec![&1, &2, &3]);
    assert_eq!(tree.get("pkg", MsgKind::Srv, "A"), vec![&1, &2, &40]);
    assert_eq!(tree.get("pkg", MsgKind::Action, "A"), vec![&1, &2]);
    assert_eq!(tree.get("other", MsgKind::Action, "A"), vec![&1, &30]);
    assert_eq!(tree.get("other", MsgKind::Msg, "A"), vec![&1]);
    assert_eq!(tree.get("third", MsgKind::Msg, "A"), vec![&1]);
}

#[test]
fn a_value_set_again_replaces_the_first() {
    let mut tree: AmentTree<String> = AmentTree::default();
    tree.set(&path("pkg/action/A"), "first".to_string());
    tree.set(&path("pkg/action/B"), "other".to_string());
    tree.set(&path("pkg/action/A"), "second".to_string());
    tree.set(&path("pkg/action/*"), "kind".to_string());
    tree.set(&path("pkg/action/*"), "kind again".to_string());
    assert_eq!(tree.get("pkg", MsgKind::Action, "A"), vec!["kind again", "second"]);
    assert_eq!(tree.get("pkg", MsgKind::Action, "B"), vec!["kind again", "other"]);
    assert_eq!(tree.get("pkg", MsgKind::Action, "C"), vec!["kind again"]);
    assert_eq!(tree.names, vec!["pkg"]);
    assert_eq!(tree.packages[0].action.names, vec!["A", "B"]);
    tree.set(&path("*/*/*"), "all".to_string());
    tree.set(&path("*/*/*"), "all again".to_string());
    assert_eq!(tree.get("x", MsgKind::Msg, "y"), vec!["all again"]);
}

#[test]
fn trees_start_empty() {
    let tree: MsgTree<u8> = MsgTree::default();
    assert!(tree.wildcard.is_none() && tree.names.is_empty() && tree.values.is_empty());
    let mut tree: MsgTree<u8> = MsgTree::new();
    tree.insert("a", 1);
    tree.insert("b", 2);
    tree.insert("a", 3);
    assert_eq!(tree.names, vec!["a", "b"]);
    assert_eq!(tree.values, vec![3, 2]);
    let tree: PackageTree<u8> = PackageTree::default();
    assert!(tree.wildcard.is_none());
    assert!(tree.msg.names.is_empty() && tree.srv.names.is_empty() && tree.action.names.is_empty());
    let tree: AmentTree<u8> = AmentTree::default();
    assert!(tree.wildcard.is_none() && tree.names.is_empty() && tree.packages.is_empty());
}
