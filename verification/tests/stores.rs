use kasmcloud_host::blobstore::{
    container_info_result, delete_objects_request, delete_objects_result, get_data_request,
    get_data_result, has_object_request, list_objects_request, list_objects_result,
    object_info_result, write_data_request, write_data_result, BlobError, Chunk, GetObjectResponse,
    ItemResult, ListObjectsResponse, ObjectMetadata,
};
use kasmcloud_host::handler::{ProviderMethod, TargetInterface};
use kasmcloud_host::keyvalue::{
    check_bucket, compare_and_swap, delete_result, exists_result, get_result, increment_request,
    increment_result, set_request, GetResponse, KeyValueError,
};
use kasmcloud_host::messaging::{
    check_max_results, publish_message, request_message, request_result, BrokerMessage,
    MessagingError, ReplyMessage,
};
use kasmcloud_host::response::DecodeError;
use kasmcloud_host::time::Duration;

fn s(text: &str) -> String {
    text.to_string()
}

fn chunk(object: &str, container: &str, bytes: Vec<u8>) -> Chunk {
    Chunk { object_id: s(object), container_id: s(container), bytes, offset: 0, is_last: true }
}

fn got(success: bool, error: Option<&str>, initial_chunk: Option<Chunk>) -> GetObjectResponse {
    GetObjectResponse { success, error: error.map(s), initial_chunk }
}

#[test]
fn objects_are_read() {
    let request = get_data_request(&s("box"), &s("file"), 3, 9);
    assert_eq!((request.object_id.as_str(), request.container_id.as_str()), ("file", "box"));
    assert_eq!((request.range_start, request.range_end), (Some(3), Some(9)));
    let read = |r: GetObjectResponse| get_data_result(r, &s("box"), &s("file"));
    assert_eq!(read(got(true, None, Some(chunk("file", "box", vec![1, 2])))).unwrap(), (vec![1, 2], 2));
    assert_eq!(read(got(true, None, None)).unwrap(), (vec![], 0));
    assert!(matches!(read(got(true, Some("no"), None)), Err(BlobError::GetObject(Some(e))) if e == "no"));
    assert!(matches!(read(got(false, None, Some(chunk("file", "box", vec![])))), Err(BlobError::GetObject(None))));
    assert!(matches!(read(got(true, None, Some(chunk("x", "y", vec![])))), Err(BlobError::OtherObject { found, asked }) if found == "x" && asked == "file"));
    assert!(matches!(read(got(true, None, Some(chunk("file", "y", vec![])))), Err(BlobError::OtherContainer { found, asked }) if found == "y" && asked == "box"));
}

#[test]
fn blob_store_errors_are_told() {
    let other = |found: &str, asked: &str| {
        BlobError::OtherObject { found: s(found), asked: s(asked) }.message()
    };
    assert_eq!(BlobError::GetObject(None).message(), "failed to get object response");
    assert_eq!(BlobError::GetObject(Some(s("no"))).message(), "failed to get object response");
    assert_eq!(other("x", "file"), "Condition failed: `object_id == name` (\"x\" vs \"file\")");
    assert_eq!(other("\"", "\n"), "Condition failed: `object_id == name` (\"\\\"\" vs \"\\n\")");
    assert_eq!(other("a b", "file"), "Condition failed: `object_id == name`");
    assert_eq!(other("x", "a b"), "Condition failed: `object_id == name`");
    let (short, long) = ("x".repeat(38), "x".repeat(39));
    assert!(other(&short, "file").ends_with("xx\" vs \"file\")"));
    assert_eq!(other(&long, "file"), "Condition failed: `object_id == name`");
    assert_eq!(
        BlobError::OtherContainer { found: s("y"), asked: s("box") }.message(),
        "Condition failed: `container_id == container` (\"y\" vs \"box\")"
    );
    assert_eq!(BlobError::Timestamp.message(), "timestamp seconds do not fit in `u64`");
    assert_eq!(BlobError::StreamId.message(), "provider returned an unexpected stream ID");
    assert_eq!(BlobError::Item(s("why")).message(), "why");
    assert_eq!(BlobError::NotRemoved(s("b")).message(), "failed to delete object `b`");
    assert_eq!(BlobError::NotLast.message(), "Condition failed: `is_last`");
    assert_eq!(BlobError::Continued.message(), "chunked responses not supported");
}

#[test]
fn containers_are_known() {
    let info = container_info_result(s("box"), Some(77)).unwrap();
    assert_eq!((info.name.as_str(), info.created_at), ("box", 77));
    assert_eq!(container_info_result(s("box"), None).unwrap().created_at, 0);
    assert!(matches!(container_info_result(s("box"), Some(-1)), Err(BlobError::Timestamp)));
    let object = has_object_request(&s("box"), s("file"));
    assert_eq!((object.container_id.as_str(), object.object_id.as_str()), ("box", "file"));
}

#[test]
fn objects_are_written_in_one_piece() {
    let piece = write_data_request(&s("box"), s("file"), vec![1]);
    assert_eq!((piece.object_id.as_str(), piece.container_id.as_str()), ("file", "box"));
    assert_eq!((piece.bytes, piece.offset, piece.is_last), (vec![1], 0, true));
    assert!(write_data_result(None).is_ok());
    assert!(matches!(write_data_result(Some(s("1"))), Err(BlobError::StreamId)));
}

#[test]
fn objects_are_removed() {
    let request = delete_objects_request(&s("box"), vec![s("a"), s("b")]);
    assert_eq!((request.container_id, request.objects.len()), (s("box"), 2));
    let item = |key: &str, success: bool, error: Option<&str>| ItemResult { key: s(key), success, error: error.map(s) };
    assert!(delete_objects_result(&vec![item("a", true, None), item("b", true, None)]).is_ok());
    assert!(delete_objects_result(&vec![]).is_ok());
    let failed = delete_objects_result(&vec![item("a", true, None), item("b", false, None), item("c", true, Some("x"))]);
    assert!(matches!(failed, Err(BlobError::NotRemoved(key)) if key == "b"));
    let failed = delete_objects_result(&vec![item("a", true, Some("why")), item("b", false, None)]);
    assert!(matches!(failed, Err(BlobError::Item(text)) if text == "why"));
}

#[test]
fn objects_are_listed() {
    let request = list_objects_request(&s("box"));
    assert_eq!((request.container_id.as_str(), request.max_items), ("box", Some(u32::MAX)));
    let object = |id: &str| ObjectMetadata { object_id: s(id), container_id: s("box"), content_length: 4 };
    let list = |is_last: bool, continuation: Option<String>| {
        list_objects_result(&ListObjectsResponse { objects: vec![object("a"), object("b")], is_last, continuation })
    };
    assert_eq!(list(true, None).unwrap(), vec![s("a"), s("b")]);
    assert!(matches!(list(false, None), Err(BlobError::NotLast)));
    assert!(matches!(list(true, Some(s("more"))), Err(BlobError::Continued)));
    let info = object_info_result(object("a"));
    assert_eq!((info.name.as_str(), info.container.as_str(), info.size, info.created_at), ("a", "box", 4, 0));
}

#[test]
fn there_are_no_buckets() {
    assert_eq!(check_bucket(&s("")), Ok(()));
    assert_eq!(check_bucket(&s("b")), Err(KeyValueError::Buckets));
    assert!(matches!(increment_request(&s("b"), s("k"), 1), Err(KeyValueError::Buckets)));
    assert!(matches!(set_request(&s("b"), s("k"), s("v")), Err(KeyValueError::Buckets)));
    assert_eq!(KeyValueError::Buckets.message(), "buckets not currently supported");
}

#[test]
fn numbers_are_incremented() {
    let request = increment_request(&s(""), s("k"), 2147483647).unwrap();
    assert_eq!((request.key.as_str(), request.value), ("k", i32::MAX));
    assert!(matches!(increment_request(&s(""), s("k"), 2147483648), Err(KeyValueError::Delta)));
    assert_eq!(increment_result(&vec![0x05]), Ok(5));
    assert_eq!(increment_result(&vec![0xff]), Err(KeyValueError::Negative));
    assert_eq!(increment_result(&vec![0xc0]), Err(KeyValueError::Decode(DecodeError::Malformed)));
    assert_eq!(compare_and_swap(), Err(KeyValueError::NotSupported));
    assert_eq!(KeyValueError::Delta.message(), "delta does not fit in `i32`");
    assert_eq!(KeyValueError::NotSupported.message(), "not supported");
}

#[test]
fn values_are_read_and_set() {
    let found = get_result(GetResponse { value: s("\u{e9}t"), exists: true }).unwrap();
    assert_eq!(found, (s("\u{e9}t"), 3));
    assert_eq!(get_result(GetResponse { value: s(""), exists: false }), Err(KeyValueError::KeyNotFound));
    let request = set_request(&s(""), s("k"), s("v")).unwrap();
    assert_eq!((request.key.as_str(), request.value.as_str(), request.expires), ("k", "v", 0));
    assert_eq!(delete_result(&vec![0xc3]), Ok(()));
    assert_eq!(delete_result(&vec![0xc2]), Err(KeyValueError::KeyNotFound));
    assert_eq!(delete_result(&vec![0x7f]), Err(KeyValueError::Decode(DecodeError::Cbor)));
    assert_eq!(exists_result(&vec![0xc1, 0xc3]), Ok(true));
    assert_eq!(exists_result(&vec![0xc2]), Ok(false));
    assert_eq!(KeyValueError::KeyNotFound.message(), "key not found");
}

#[test]
fn messages_are_sent_and_answered() {
    let request = request_message(s("subject"), Some(vec![1]), Duration { secs: 1, nanos: 500_000_000 }).unwrap();
    assert_eq!((request.subject.as_str(), request.body, request.timeout_ms), ("subject", vec![1], 1500));
    let empty = request_message(s("subject"), None, Duration { secs: 0, nanos: 0 }).unwrap();
    assert!(empty.body.is_empty());
    let edge = Duration { secs: 4294967, nanos: 295_999_999 };
    assert_eq!(request_message(s("x"), None, edge).unwrap().timeout_ms, u32::MAX);
    let long = Duration { secs: 4294967, nanos: 296_000_000 };
    assert!(matches!(request_message(s("x"), None, long), Err(MessagingError::Timeout)));
    let answer = request_result(ReplyMessage { subject: s("r"), reply_to: Some(s("t")), body: vec![2] });
    assert_eq!((answer.subject.as_str(), answer.reply_to, answer.body), ("r", Some(s("t")), Some(vec![2])));
    assert_eq!(check_max_results(0), Ok(()));
    assert_eq!(check_max_results(1), Ok(()));
    assert_eq!(check_max_results(2), Err(MessagingError::TooMany));
    let sent = publish_message(BrokerMessage { subject: s("p"), reply_to: None, body: None });
    assert_eq!((sent.subject.as_str(), sent.reply_to, sent.body.len()), ("p", None, 0));
    assert_eq!(MessagingError::TooMany.message(), "at most 1 result can be requested at the time");
    assert_eq!(MessagingError::Timeout.message(), "timeout milliseconds do not fit in `u32`");
}

#[test]
fn operations_belong_to_interfaces() {
    assert_eq!(ProviderMethod::ListObjects.operation(), "wasmcloud:blobstore/Blobstore.ListObjects");
    assert!(matches!(ProviderMethod::ListObjects.interface(), TargetInterface::WasiBlobstoreBlobstore));
    assert_eq!(ProviderMethod::KeyIncrement.operation(), "wasmcloud:keyvalue/KeyValue.Increment");
    assert!(matches!(ProviderMethod::KeyIncrement.interface(), TargetInterface::WasiKeyvalueAtomic));
    assert_eq!(ProviderMethod::KeyDel.operation(), "wasmcloud:keyvalue/KeyValue.Del");
    assert!(matches!(ProviderMethod::KeyDel.interface(), TargetInterface::WasiKeyvalueReadwrite));
    assert_eq!(ProviderMethod::MessagePublish.operation(), "wasmcloud:messaging/Messaging.Publish");
    assert!(matches!(ProviderMethod::MessagePublish.interface(), TargetInterface::WasmcloudMessagingConsumer));
}
