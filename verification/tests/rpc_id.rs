use swiboe::error::Error;
use swiboe::rpc_id::{is_valid_implementor, is_valid_name, RpcId};

#[test]
fn test_is_valid_name() {
    assert!(is_valid_name("blub"));
    assert!(is_valid_name("blub.foo.basel"));
    assert!(is_valid_name("bl1b.f3o.basel0"));
    assert!(is_valid_name("new_rpc.f3o.basel0"));

    assert!(!is_valid_name("blUb.foo.basel"));
    assert!(!is_valid_name("blub:foo.basel"));
    assert!(!is_valid_name("blub_"));
    assert!(!is_valid_name("blub."));
    assert!(!is_valid_name(".blub"));
}

#[test]
fn test_identifier_with_string() {
    let id = RpcId::new("blub.blah:swiboe").unwrap();
    assert_eq!("blub.blah", id.name());
    assert_eq!("swiboe", id.implementor());
}

#[test]
fn name_edge_cases() {
    assert!(!is_valid_name(""));
    assert!(!is_valid_name("a"));
    assert!(is_valid_name("ab"));
    assert!(is_valid_name("a0"));
    assert!(!is_valid_name("0a"));
    assert!(is_valid_name("a_.b"));
    assert!(!is_valid_name("a b"));
    assert!(!is_valid_name("ab\n"));
}

#[test]
fn implementor_rejects_dots_and_colons() {
    assert!(is_valid_implementor("swiboe"));
    assert!(is_valid_implementor("plugin_2"));
    assert!(!is_valid_implementor("swi.boe"));
    assert!(!is_valid_implementor("swi:boe"));
    assert!(!is_valid_implementor("Swiboe"));
    assert!(!is_valid_implementor("s"));
    assert!(!is_valid_implementor("swiboe_"));
}

#[test]
fn identifier_without_colon_is_refused() {
    assert!(matches!(RpcId::new("blub.blah"), Err(Error::InvalidRpcIdentifier)));
    assert!(matches!(RpcId::new(""), Err(Error::InvalidRpcIdentifier)));
}

#[test]
fn identifier_splits_at_first_colon() {
    // The implementor part would hold a colon, which no implementor may.
    assert!(matches!(RpcId::new("blub:foo:bar"), Err(Error::InvalidRpcIdentifier)));
    assert!(matches!(RpcId::new(":swiboe"), Err(Error::InvalidRpcIdentifier)));
    assert!(matches!(RpcId::new("blub:"), Err(Error::InvalidRpcIdentifier)));
}

#[test]
fn identifier_with_invalid_parts_is_refused() {
    assert!(matches!(RpcId::new("Blub:swiboe"), Err(Error::InvalidRpcIdentifier)));
    assert!(matches!(RpcId::new("blub:swi.boe"), Err(Error::InvalidRpcIdentifier)));
}

#[test]
fn identifier_round_trip() {
    let text = "on.buffer.new:plugin_buffer";
    let id = RpcId::new(text).unwrap();
    assert_eq!(format!("{}:{}", id.name(), id.implementor()), text);
    let again = RpcId::new(&format!("{}:{}", id.name(), id.implementor())).unwrap();
    assert_eq!(again.name(), id.name());
    assert_eq!(again.implementor(), id.implementor());
}

#[test]
fn identifier_parts_are_valid() {
    let id = RpcId::new("core.new_rpc:core").unwrap();
    assert!(is_valid_name(id.name()));
    assert!(is_valid_implementor(id.implementor()));
}

#[test]
fn implementors_are_names() {
    for s in ["swiboe", "plugin_2", "ab", "a_b"] {
        assert!(is_valid_implementor(s));
        assert!(is_valid_name(s));
    }
}

#[test]
fn name_and_implementor_must_be_in_order() {
    assert!(matches!(RpcId::new("swiboe:blub.blah"), Err(Error::InvalidRpcIdentifier)));
    assert!(RpcId::new("blub.blah:swiboe").is_ok());
}
