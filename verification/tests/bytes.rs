use std::sync::atomic::{AtomicUsize, Ordering};
use std::sync::Arc;

use async_std::channel::{bounded, unbounded};
use tacd::{AnySubscriptionHandle, AnyTopic, Topic};

fn u32_to_json(value: &u32) -> Vec<u8> {
    serde_json::to_vec(value).unwrap()
}

fn u32_from_json(bytes: &[u8]) -> Result<u32, serde_json::Error> {
    serde_json::from_slice(bytes)
}

fn text_to_json(value: &String) -> Vec<u8> {
    serde_json::to_vec(value).unwrap()
}

fn text_from_json(bytes: &[u8]) -> Result<String, serde_json::Error> {
    serde_json::from_slice(bytes)
}

fn list_to_json(value: &Vec<String>) -> Vec<u8> {
    serde_json::to_vec(value).unwrap()
}

fn list_from_json(bytes: &[u8]) -> Result<Vec<String>, serde_json::Error> {
    serde_json::from_slice(bytes)
}

fn path_of(path: &str) -> Arc<String> {
    Arc::new(path.to_string())
}

type ByteQueue = (Arc<String>, Arc<[u8]>);

#[test]
fn try_get_as_bytes_is_empty_before_the_first_publication() {
    let mut topic = Topic::new(path_of("/t"), true, true, None, u32_to_json, u32_from_json);
    assert!(topic.try_get_as_bytes().is_none());
    assert!(topic.try_get().is_none());
}

#[test]
fn try_get_as_bytes_encodes_the_retained_value() {
    let mut topic = Topic::new(path_of("/t"), true, true, Some(17), u32_to_json, u32_from_json);
    assert_eq!(&*topic.try_get_as_bytes().unwrap(), b"17");
    topic.set(4000000000);
    assert_eq!(&*topic.try_get_as_bytes().unwrap(), b"4000000000");
    assert_eq!(&*topic.try_get_as_bytes().unwrap(), b"4000000000");
}

#[test]
fn set_from_bytes_publishes_the_decoded_value() {
    let mut topic = Topic::new(path_of("/t"), true, true, None, u32_to_json, u32_from_json);
    let (tx, rx) = unbounded::<Arc<u32>>();
    let _handle = topic.subscribe(tx);
    assert!(topic.set_from_bytes(b" 42 ").is_ok());
    assert_eq!(*topic.try_get().unwrap(), 42);
    assert_eq!(*rx.try_recv().unwrap(), 42);
    assert_eq!(&*topic.try_get_as_bytes().unwrap(), b"42");
}

#[test]
fn set_from_bytes_rejects_bytes_that_do_not_decode() {
    let mut topic = Topic::new(path_of("/t"), true, true, Some(5), u32_to_json, u32_from_json);
    let before = topic.try_get().unwrap();
    let (tx, rx) = unbounded::<Arc<u32>>();
    let (tx_bytes, rx_bytes) = unbounded::<ByteQueue>();
    let _native = topic.subscribe(tx);
    let _serialized = topic.subscribe_as_bytes(tx_bytes);

    let syntax = topic.set_from_bytes(b"12 34").unwrap_err();
    assert!(syntax.cause.is_syntax());
    let data = topic.set_from_bytes(b"\"five\"").unwrap_err();
    assert!(data.cause.is_data());
    let range = topic.set_from_bytes(b"-1").unwrap_err();
    assert!(range.cause.is_data());
    let eof = topic.set_from_bytes(b"").unwrap_err();
    assert!(eof.cause.is_eof());
    assert_eq!(eof.cause.line(), 1);
    assert_eq!(eof.cause.column(), 0);

    assert!(Arc::ptr_eq(&before, &topic.try_get().unwrap()));
    assert!(rx.try_recv().is_err());
    assert!(rx_bytes.try_recv().is_err());
    assert_eq!(topic.native_subscribers(), 1);
    assert_eq!(topic.serialized_subscribers(), 1);
    assert_eq!(&*topic.try_get_as_bytes().unwrap(), b"5");
}

#[test]
fn round_trip_of_numbers_is_bit_for_bit() {
    for value in [0u32, 1, 9, 10, 255, 65536, u32::MAX] {
        let mut topic = Topic::new(path_of("/t"), true, true, None, u32_to_json, u32_from_json);
        let encoded = u32_to_json(&value);
        assert!(topic.set_from_bytes(&encoded).is_ok());
        assert_eq!(&*topic.try_get_as_bytes().unwrap(), encoded.as_slice());
        assert_eq!(*topic.try_get().unwrap(), value);
    }
}

#[test]
fn round_trip_of_text_is_bit_for_bit() {
    for value in ["", "lxatac", "with \"quotes\" and \\ and \n", "größe ✓"] {
        let value = value.to_string();
        let mut topic = Topic::new(path_of("/t"), true, true, None, text_to_json, text_from_json);
        let encoded = text_to_json(&value);
        assert!(topic.set_from_bytes(&encoded).is_ok());
        assert_eq!(&*topic.try_get_as_bytes().unwrap(), encoded.as_slice());
        assert_eq!(*topic.try_get().unwrap(), value);
    }
}

#[test]
fn round_trip_of_lists_is_bit_for_bit() {
    let value = vec!["192.168.1.1".to_string(), "10.0.0.1".to_string()];
    let mut topic = Topic::new(path_of("/t"), true, true, None, list_to_json, list_from_json);
    let encoded = list_to_json(&value);
    assert_eq!(encoded.as_slice(), b"[\"192.168.1.1\",\"10.0.0.1\"]");
    assert!(topic.set_from_bytes(&encoded).is_ok());
    assert_eq!(&*topic.try_get_as_bytes().unwrap(), encoded.as_slice());
    assert_eq!(*topic.try_get().unwrap(), value);
}

#[test]
fn serialized_subscriber_receives_path_and_bytes() {
    let mut topic =
        Topic::new(path_of("/v1/tac/number"), true, true, Some(1), u32_to_json, u32_from_json);
    let (tx, rx) = unbounded::<ByteQueue>();
    let _handle = topic.subscribe_as_bytes(tx);
    assert_eq!(topic.serialized_subscribers(), 1);
    assert!(rx.try_recv().is_err());
    topic.set(2);
    topic.set(30);
    let (path, bytes) = rx.try_recv().unwrap();
    assert_eq!(path.as_str(), "/v1/tac/number");
    assert_eq!(&*bytes, b"2");
    let (path, bytes) = rx.try_recv().unwrap();
    assert_eq!(path.as_str(), "/v1/tac/number");
    assert_eq!(&*bytes, b"30");
    assert!(rx.try_recv().is_err());
}

#[test]
fn serialized_subscribers_share_one_encoding_with_the_cache() {
    let mut topic = Topic::new(path_of("/t"), true, true, None, u32_to_json, u32_from_json);
    let (tx_a, rx_a) = unbounded::<ByteQueue>();
    let (tx_b, rx_b) = unbounded::<ByteQueue>();
    let _a = topic.subscribe_as_bytes(tx_a);
    let _b = topic.subscribe_as_bytes(tx_b);
    topic.set(77);
    let (path_a, bytes_a) = rx_a.try_recv().unwrap();
    let (path_b, bytes_b) = rx_b.try_recv().unwrap();
    let cached = topic.try_get_as_bytes().unwrap();
    assert!(Arc::ptr_eq(&bytes_a, &bytes_b));
    assert!(Arc::ptr_eq(&bytes_a, &cached));
    assert!(Arc::ptr_eq(&path_a, &path_b));
    assert!(Arc::ptr_eq(&path_a, topic.path()));
}

#[test]
fn encoding_is_computed_at_most_once_per_publication() {
    let calls = Arc::new(AtomicUsize::new(0));
    let counter = calls.clone();
    let counting = move |value: &u32| {
        counter.fetch_add(1, Ordering::SeqCst);
        serde_json::to_vec(value).unwrap()
    };
    let mut topic = Topic::new(path_of("/t"), true, true, None, counting, u32_from_json);

    // Nobody wants bytes: nothing is encoded.
    topic.set(1);
    assert_eq!(calls.load(Ordering::SeqCst), 0);

    // The first request encodes, the later ones read the cache.
    assert_eq!(&*topic.try_get_as_bytes().unwrap(), b"1");
    assert_eq!(calls.load(Ordering::SeqCst), 1);
    assert_eq!(&*topic.try_get_as_bytes().unwrap(), b"1");
    assert_eq!(calls.load(Ordering::SeqCst), 1);

    // Three serialized subscribers: one encoding for all of them.
    let (tx_a, rx_a) = unbounded::<ByteQueue>();
    let (tx_b, rx_b) = unbounded::<ByteQueue>();
    let (tx_c, rx_c) = unbounded::<ByteQueue>();
    let _a = topic.subscribe_as_bytes(tx_a);
    let _b = topic.subscribe_as_bytes(tx_b);
    let _c = topic.subscribe_as_bytes(tx_c);
    topic.set(2);
    assert_eq!(calls.load(Ordering::SeqCst), 2);
    assert_eq!(&*rx_a.try_recv().unwrap().1, b"2");
    assert_eq!(&*rx_b.try_recv().unwrap().1, b"2");
    assert_eq!(&*rx_c.try_recv().unwrap().1, b"2");
    assert_eq!(&*topic.try_get_as_bytes().unwrap(), b"2");
    assert_eq!(calls.load(Ordering::SeqCst), 2);
}

#[test]
fn cache_never_describes_an_older_value() {
    let mut topic = Topic::new(path_of("/t"), true, true, Some(1), u32_to_json, u32_from_json);
    assert_eq!(&*topic.try_get_as_bytes().unwrap(), b"1");
    topic.set(2);
    assert_eq!(&*topic.try_get_as_bytes().unwrap(), b"2");
    topic.modify(|_current: Option<Arc<u32>>| Some(Arc::new(3)));
    assert_eq!(&*topic.try_get_as_bytes().unwrap(), b"3");
    assert!(topic.set_from_bytes(b"4").is_ok());
    assert_eq!(&*topic.try_get_as_bytes().unwrap(), b"4");
    topic.modify(|_current: Option<Arc<u32>>| None);
    assert_eq!(&*topic.try_get_as_bytes().unwrap(), b"4");
}

#[test]
fn bounded_serialized_subscriber_is_evicted_when_full() {
    let mut topic = Topic::new(path_of("/t"), true, true, None, u32_to_json, u32_from_json);
    let (tx, rx) = bounded::<ByteQueue>(2);
    let (tx_native, rx_native) = unbounded::<Arc<u32>>();
    let handle = topic.subscribe_as_bytes(tx);
    let _native = topic.subscribe(tx_native);
    topic.set(1);
    topic.set(2);
    assert!(!rx.is_closed());
    assert_eq!(topic.serialized_subscribers(), 1);
    topic.set(3);
    assert!(rx.is_closed());
    assert_eq!(topic.serialized_subscribers(), 0);
    assert_eq!(&*rx.try_recv().unwrap().1, b"1");
    assert_eq!(&*rx.try_recv().unwrap().1, b"2");
    assert!(rx.try_recv().is_err());
    handle.unsubscribe(&mut topic);
    assert_eq!(topic.serialized_subscribers(), 0);

    // The native side never noticed.
    assert_eq!(topic.native_subscribers(), 1);
    for expected in [1, 2, 3] {
        assert_eq!(*rx_native.try_recv().unwrap(), expected);
    }
}

#[test]
fn serialized_unsubscribe_ends_the_subscription() {
    let mut topic = Topic::new(path_of("/t"), true, true, None, u32_to_json, u32_from_json);
    let (tx_a, rx_a) = unbounded::<ByteQueue>();
    let (tx_b, rx_b) = unbounded::<ByteQueue>();
    let a = topic.subscribe_as_bytes(tx_a);
    let b = topic.subscribe_as_bytes(tx_b);
    topic.set(1);
    a.unsubscribe(&mut topic);
    assert_eq!(topic.serialized_subscribers(), 1);
    a.unsubscribe(&mut topic);
    assert_eq!(topic.serialized_subscribers(), 1);
    topic.set(2);
    assert_eq!(&*rx_a.try_recv().unwrap().1, b"1");
    assert!(rx_a.try_recv().is_err());
    assert_eq!(&*rx_b.try_recv().unwrap().1, b"1");
    assert_eq!(&*rx_b.try_recv().unwrap().1, b"2");
    topic.unsubscribe_as_bytes(&b);
    assert_eq!(topic.serialized_subscribers(), 0);
}

#[test]
fn native_and_serialized_registries_are_separate() {
    let mut topic = Topic::new(path_of("/t"), true, true, None, u32_to_json, u32_from_json);
    let (tx, _rx) = unbounded::<Arc<u32>>();
    let (tx_bytes, _rx_bytes) = unbounded::<ByteQueue>();
    let native = topic.subscribe(tx);
    let serialized = topic.subscribe_as_bytes(tx_bytes);
    assert_eq!(topic.native_subscribers(), 1);
    assert_eq!(topic.serialized_subscribers(), 1);
    serialized.unsubscribe(&mut topic);
    assert_eq!(topic.native_subscribers(), 1);
    assert_eq!(topic.serialized_subscribers(), 0);
    native.unsubscribe(&mut topic);
    assert_eq!(topic.native_subscribers(), 0);
}

#[test]
fn set_decoded_takes_the_outcome_of_decoding() {
    let mut topic = Topic::new(path_of("/t"), true, true, None, u32_to_json, u32_from_json);
    assert!(topic.set_decoded(Ok(3)).is_ok());
    assert_eq!(*topic.try_get().unwrap(), 3);
    let failure = u32_from_json(b"\n\n  ").unwrap_err();
    let line = failure.line();
    let column = failure.column();
    let error = topic.set_decoded(Err(failure)).unwrap_err();
    assert!(error.cause.is_eof());
    assert_eq!(error.cause.line(), line);
    assert_eq!(error.cause.column(), column);
    assert_eq!(*topic.try_get().unwrap(), 3);
}

fn real_to_json(value: &f64) -> Vec<u8> {
    serde_json::to_vec(value).unwrap()
}

fn real_from_json(bytes: &[u8]) -> Result<f64, serde_json::Error> {
    serde_json::from_slice(bytes)
}

#[test]
fn round_trip_needs_a_codec_that_restores_the_value() {
    // A number that is not a number is written as `null`, which does not
    // read back as a number: the write is refused and nothing changes.
    let mut topic = Topic::new(path_of("/t"), true, true, Some(1.5), real_to_json, real_from_json);
    let encoded = real_to_json(&f64::NAN);
    assert_eq!(encoded.as_slice(), b"null");
    assert!(topic.set_from_bytes(&encoded).is_err());
    assert_eq!(&*topic.try_get_as_bytes().unwrap(), b"1.5");

    // Every other number comes back bit for bit.
    for value in [0.0, -0.0, 21.5, 22.0, 1e-7, f64::MAX, f64::MIN_POSITIVE] {
        let encoded = real_to_json(&value);
        assert!(topic.set_from_bytes(&encoded).is_ok());
        assert_eq!(&*topic.try_get_as_bytes().unwrap(), encoded.as_slice());
        assert_eq!(topic.try_get().unwrap().to_bits(), value.to_bits());
    }
}

#[test]
fn topics_of_different_types_are_served_as_bytes() {
    let mut topics: Vec<Box<dyn AnyTopic>> = vec![
        Box::new(Topic::new(path_of("/number"), true, true, Some(1), u32_to_json, u32_from_json)),
        Box::new(Topic::new(
            path_of("/text"),
            true,
            false,
            Some("one".to_string()),
            text_to_json,
            text_from_json,
        )),
        Box::new(Topic::new(path_of("/list"), false, false, None, list_to_json, list_from_json)),
    ];

    let paths: Vec<String> = topics.iter().map(|topic| topic.path().to_string()).collect();
    assert_eq!(paths, ["/number", "/text", "/list"]);
    let readable: Vec<bool> = topics.iter().map(|topic| topic.web_readable()).collect();
    assert_eq!(readable, [true, true, false]);
    let writable: Vec<bool> = topics.iter().map(|topic| topic.web_writable()).collect();
    assert_eq!(writable, [true, false, false]);

    let (tx, rx) = unbounded::<ByteQueue>();
    let mut handles = Vec::new();
    for topic in topics.iter_mut() {
        handles.push(topic.subscribe_as_bytes(tx.clone()));
    }

    assert!(topics[0].set_from_bytes(b"2").is_ok());
    assert!(topics[1].set_from_bytes(b"\"two\"").is_ok());
    assert!(topics[2].set_from_bytes(b"[\"two\"]").is_ok());
    // Each topic reads its own type only.
    assert!(topics[0].set_from_bytes(b"\"three\"").is_err());
    assert!(topics[1].set_from_bytes(b"3").is_err());
    assert!(topics[2].set_from_bytes(b"3").is_err());

    let received: Vec<(String, Vec<u8>)> = std::iter::from_fn(|| rx.try_recv().ok())
        .map(|(path, bytes)| (path.to_string(), bytes.to_vec()))
        .collect();
    assert_eq!(
        received,
        [
            ("/number".to_string(), b"2".to_vec()),
            ("/text".to_string(), b"\"two\"".to_vec()),
            ("/list".to_string(), b"[\"two\"]".to_vec()),
        ]
    );

    assert_eq!(&*topics[0].try_get_as_bytes().unwrap(), b"2");
    assert_eq!(&*topics[1].try_get_as_bytes().unwrap(), b"\"two\"");
    assert_eq!(&*topics[2].try_get_as_bytes().unwrap(), b"[\"two\"]");

    for (topic, handle) in topics.iter_mut().zip(handles.iter()) {
        handle.unsubscribe(topic.as_mut());
    }
    assert!(topics[0].set_from_bytes(b"4").is_ok());
    assert!(rx.try_recv().is_err());
}
