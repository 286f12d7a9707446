use sandbox_host::bridge::{failure_text, guest_outcome, HandleFailure};

#[test]
fn external_rendering_is_preferred() {
    let f = HandleFailure {
        rendered: Some("TypeError: bad payload\n".to_string()),
        ty_name: Some("TypeError".to_string()),
        message: Some("bad payload".to_string()),
    };
    assert_eq!(failure_text(&f), "TypeError: bad payload\n");
}

#[test]
fn fallback_orders_type_then_message() {
    let f = HandleFailure {
        rendered: None,
        ty_name: Some("ConnectionError".to_string()),
        message: Some("peer went away".to_string()),
    };
    let s = failure_text(&f);
    assert_eq!(s, "ConnectionError: peer went away");
    let ty_at = s.find("ConnectionError").unwrap();
    let msg_at = s.find("peer went away").unwrap();
    assert!(ty_at < msg_at);
}

#[test]
fn fallback_defaults_when_nothing_could_be_retrieved() {
    let f = HandleFailure {
        rendered: None,
        ty_name: None,
        message: None,
    };
    assert_eq!(failure_text(&f), "PyErr: <error>");
}

#[test]
fn fallback_default_type_only() {
    let f = HandleFailure {
        rendered: None,
        ty_name: None,
        message: Some("lost".to_string()),
    };
    assert_eq!(failure_text(&f), "PyErr: lost");
}

#[test]
fn fallback_default_message_only() {
    let f = HandleFailure {
        rendered: None,
        ty_name: Some("ValueError".to_string()),
        message: None,
    };
    assert_eq!(failure_text(&f), "ValueError: <error>");
}

#[test]
fn success_passes_through_unchanged() {
    let r: Result<Vec<u8>, HandleFailure> = Ok(vec![1, 2, 3]);
    assert_eq!(guest_outcome(r), Ok(vec![1, 2, 3]));
}

#[test]
fn failure_becomes_only_the_rendered_string() {
    let r: Result<bool, HandleFailure> = Err(HandleFailure {
        rendered: None,
        ty_name: Some("RuntimeError".to_string()),
        message: Some("handle failed".to_string()),
    });
    assert_eq!(guest_outcome(r), Err("RuntimeError: handle failed".to_string()));
}
