use rovs::openflow::action_list::ActionList;
use rovs::openflow::error::Error;
use rovs::openflow::flow::{FlowMod, FlowModCommand};
use rovs::openflow::match_fields::Match;
use rovs::openflow::oxm::{oxm_header, OxmClass, OxmField};
use rovs::openflow::vconn::VConnState;
use rovs::openflow::version::Version;

#[test]
fn version_wire_numbers() {
    assert_eq!(Version::Of10.wire_version(), 1);
    assert_eq!(Version::Of13.wire_version(), 4);
    assert_eq!(Version::Of15.wire_version(), 6);
    assert_eq!(Version::try_from(4u8).unwrap(), Version::Of13);
    assert!(matches!(Version::try_from(7u8), Err(Error::UnsupportedVersion(7))));
    assert!(matches!(Version::from_wire(0), Err(Error::UnsupportedVersion(0))));
}

#[test]
fn unknown_action_type_message() {
    match rovs::openflow::action::ActionType::try_from(99) {
        Err(Error::Parse(m)) => assert_eq!(m, "unknown action type: 99"),
        other => panic!("unexpected {:?}", other),
    }
}

#[test]
fn match_builders_set_fields() {
    let m = Match::new();
    assert!(m.is_empty());
    let m = Match::new().ipv4_src([10, 0, 0, 1], 24).tcp_dst(80);
    assert!(!m.is_empty());
    assert_eq!(m.eth_type, Some(0x0800));
    assert_eq!(m.ipv4_src, Some([10, 0, 0, 1]));
    assert_eq!(m.ipv4_src_mask, Some(24));
    assert_eq!(m.ip_proto, Some(6));
    assert_eq!(m.tcp_dst, Some(80));
    let m = Match::new().udp_src(53);
    assert_eq!(m.ip_proto, Some(17));
    assert!(!Match::new().tunnel_id(5).is_empty());
    assert!(!Match::new().in_port(1).is_empty());
}

#[test]
fn flow_mod_add_and_delete() {
    let add = FlowMod::add().table(3).priority(100).cookie(7).idle_timeout(10).hard_timeout(20);
    assert_eq!(add.command, FlowModCommand::Add);
    assert_eq!(add.table_id, 3);
    assert_eq!(add.priority, 100);
    assert_eq!(add.cookie, 7);
    assert_eq!(add.idle_timeout, 10);
    assert_eq!(add.hard_timeout, 20);
    assert!(add.match_fields.is_empty());
    assert!(add.actions.is_empty());
    let del = FlowMod::delete().match_fields(Match::new().in_port(2)).actions(ActionList::new().dec_ttl());
    assert_eq!(del.command, FlowModCommand::Delete);
    assert_eq!(del.table_id, 0xff);
    assert_eq!(del.match_fields.in_port, Some(2));
    assert_eq!(del.actions.len(), 1);
    assert_eq!(FlowModCommand::DeleteStrict.wire_value(), 4);
}

#[test]
fn oxm_header_layout() {
    assert_eq!(oxm_header(OxmClass::OpenflowBasic, OxmField::EthDst, false, 6), 0x8000_0606);
    assert_eq!(oxm_header(OxmClass::OpenflowBasic, OxmField::Ipv4Dst, true, 8), 0x8000_1908);
}

#[test]
fn vconn_xids_and_negotiation() {
    let mut v = VConnState::new();
    assert_eq!(v.version(), Version::Of13);
    assert_eq!(v.next_xid(), 1);
    assert_eq!(v.next_xid(), 2);
    v.negotiate(Version::Of15);
    assert_eq!(v.version(), Version::Of13);
    v.negotiate(Version::Of10);
    assert_eq!(v.version(), Version::Of10);
}
