//! Direct checks of individual handlers and helpers.

use os_bridge::handlers::{home_payload, is_resolved_path, tty_value};
use os_bridge::value::{Prim, Value};

#[test]
fn tty_value_streams_are_independent() {
    let v = tty_value(false, true, true);
    match v {
        Value::Obj(es) => {
            assert_eq!(es.len(), 3);
            assert_eq!(es[0].0, "stdin");
            assert!(matches!(es[0].1, Prim::Bool(false)));
            assert_eq!(es[1].0, "stdout");
            assert!(matches!(es[1].1, Prim::Bool(true)));
            assert_eq!(es[2].0, "stderr");
            assert!(matches!(es[2].1, Prim::Bool(true)));
        },
        _ => panic!("expected an object"),
    }
    let w = tty_value(true, false, true);
    match w {
        Value::Obj(es) => {
            assert!(matches!(es[0].1, Prim::Bool(true)));
            assert!(matches!(es[1].1, Prim::Bool(false)));
            assert!(matches!(es[2].1, Prim::Bool(true)));
        },
        _ => panic!("expected an object"),
    }
}

#[test]
fn home_payload_falls_back_to_empty() {
    assert_eq!(home_payload(None), "");
    assert_eq!(home_payload(Some(String::from("/home/u"))), "/home/u");
}

#[test]
fn resolved_path_check() {
    assert!(is_resolved_path("/usr/bin/tool"));
    assert!(is_resolved_path("/"));
    assert!(is_resolved_path("/a.b/c..d"));
    assert!(!is_resolved_path(""));
    assert!(!is_resolved_path("usr/bin"));
    assert!(!is_resolved_path("/usr/./bin"));
    assert!(!is_resolved_path("/usr/../bin"));
    assert!(!is_resolved_path("/usr/bin/."));
    assert!(!is_resolved_path("/usr/bin/.."));
    assert!(!is_resolved_path("/."));
}
