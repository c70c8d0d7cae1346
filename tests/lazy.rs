use reddit_fetch::client::FetchError;
use reddit_fetch::lazy::LazyResponse;

const PAYLOAD: &str = r#"{"kind": "Listing", "data": {"after": null, "children": [], "modhash": ""}}"#;

fn decode_failure() -> FetchError {
    FetchError::Decode {
        path: "data.children[0].data.title".to_string(),
        line: 2,
        column: 5,
        message: "invalid type: integer `1`, expected a string".to_string(),
    }
}

#[test]
fn raw_payload_is_written_back_unchanged() {
    let lazy: LazyResponse<u32> = LazyResponse::from_raw(PAYLOAD.to_string());
    assert_eq!(lazy.serialize(), PAYLOAD);
    assert_eq!(lazy.pending(), Some(PAYLOAD));
    assert_eq!(lazy.get(), None);
}

#[test]
fn resolved_payload_is_written_back_unchanged() {
    let mut lazy: LazyResponse<u32> = LazyResponse::from_raw(PAYLOAD.to_string());
    assert!(lazy.resolve(Ok(7)).is_ok());
    assert_eq!(lazy.get(), Some(&7));
    assert_eq!(lazy.pending(), None);
    assert_eq!(lazy.serialize(), PAYLOAD);
}

#[test]
fn resolution_happens_once() {
    let mut lazy: LazyResponse<u32> = LazyResponse::from_raw(PAYLOAD.to_string());
    assert!(lazy.resolve(Ok(7)).is_ok());
    assert!(lazy.resolve(Ok(8)).is_ok());
    assert!(lazy.resolve(Err(decode_failure())).is_ok());
    assert_eq!(lazy.get(), Some(&7));
    assert_eq!(lazy.serialize(), PAYLOAD);
}

#[test]
fn failed_resolution_leaves_payload_raw() {
    let mut lazy: LazyResponse<u32> = LazyResponse::from_raw(PAYLOAD.to_string());
    match lazy.resolve(Err(decode_failure())) {
        Err(FetchError::Decode { path, line, column, .. }) => {
            assert_eq!(path, "data.children[0].data.title");
            assert_eq!((line, column), (2, 5));
        }
        other => panic!("unexpected result {:?}", other),
    }
    assert_eq!(lazy.get(), None);
    assert_eq!(lazy.pending(), Some(PAYLOAD));
    assert_eq!(lazy.serialize(), PAYLOAD);
    assert!(lazy.resolve(Ok(1)).is_ok());
    assert_eq!(lazy.get(), Some(&1));
}
