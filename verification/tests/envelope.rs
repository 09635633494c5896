use telemetry_session::envelope::filter;
use telemetry_session::envelope::payloads;
use telemetry_session::envelope::Body;
use telemetry_session::envelope::ResponseEnvelope;

#[test]
fn status_envelope_is_filtered_out() {
    assert_eq!(filter(&ResponseEnvelope::Status), None);
}

#[test]
fn every_kind_but_data_is_filtered_out() {
    assert_eq!(filter(&ResponseEnvelope::Control), None);
    assert_eq!(filter(&ResponseEnvelope::Error), None);
    assert_eq!(filter(&ResponseEnvelope::Unrecognised), None);
    assert!(payloads(&ResponseEnvelope::Status).is_empty());
    assert!(payloads(&ResponseEnvelope::Unrecognised).is_empty());
}

#[test]
fn encrypted_data_is_filtered_out() {
    let envelope = ResponseEnvelope::Data(vec![Body::Encrypted(vec![1, 2, 3])]);
    assert_eq!(filter(&envelope), None);
}

#[test]
fn empty_body_is_filtered_out() {
    let envelope = ResponseEnvelope::Data(vec![Body::Empty]);
    assert_eq!(filter(&envelope), None);
}

#[test]
fn data_without_items_is_filtered_out() {
    let envelope = ResponseEnvelope::Data(vec![]);
    assert_eq!(filter(&envelope), None);
    assert!(payloads(&envelope).is_empty());
}

#[test]
fn data_with_only_unreadable_bodies_is_filtered_out() {
    let envelope = ResponseEnvelope::Data(vec![
        Body::Encrypted(vec![9]),
        Body::Empty,
        Body::Encrypted(vec![]),
    ]);
    assert_eq!(filter(&envelope), None);
}

#[test]
fn cleartext_payload_passes_unchanged() {
    let bytes = b"{\"temperature\":21.5,\"pressure\":101.3,\"humidity\":40.0}".to_vec();
    let envelope = ResponseEnvelope::Data(vec![Body::Cleartext(bytes.clone())]);
    assert_eq!(filter(&envelope), Some(vec![bytes]));
}

#[test]
fn empty_cleartext_payload_still_passes() {
    let envelope = ResponseEnvelope::Data(vec![Body::Cleartext(vec![])]);
    assert_eq!(filter(&envelope), Some(vec![vec![]]));
}

#[test]
fn cleartext_payloads_keep_their_order() {
    let envelope = ResponseEnvelope::Data(vec![
        Body::Cleartext(vec![1]),
        Body::Encrypted(vec![2]),
        Body::Cleartext(vec![3, 3]),
        Body::Empty,
        Body::Cleartext(vec![4]),
    ]);
    assert_eq!(filter(&envelope), Some(vec![vec![1], vec![3, 3], vec![4]]));
    assert_eq!(payloads(&envelope), vec![vec![1], vec![3, 3], vec![4]]);
}

#[test]
fn filter_leaves_the_envelope_as_it_was() {
    let envelope = ResponseEnvelope::Data(vec![Body::Cleartext(vec![7, 8])]);
    let _ = filter(&envelope);
    assert_eq!(envelope, ResponseEnvelope::Data(vec![Body::Cleartext(vec![7, 8])]));
}

#[test]
fn body_gives_its_bytes_only_when_cleartext() {
    assert_eq!(Body::Cleartext(vec![5, 6]).cleartext(), Some(&vec![5, 6]));
    assert_eq!(Body::Encrypted(vec![5, 6]).cleartext(), None);
    assert_eq!(Body::Empty.cleartext(), None);
}
