use moray::buckets::{self, Bucket, IndexField};
use moray::dispatch::{decode_record, EndStatus, Exchange, Frame, Record, RecordKind, Step};
use moray::error::MorayError;
use moray::json::{find_key, JsonValue};
use moray::objects::{self, decode_object, MorayObject};
use moray::pool::{claim_error, claimed, default_pool_config, validate_pool_config, ClaimFailure};
use moray::request::{
    bucket_request, create_bucket_request, get_bucket_request, list_buckets_request, object_request,
    put_object_request, sql_request,
};

fn s(text: &str) -> JsonValue {
    JsonValue::Str(text.to_string())
}

fn obj(entries: Vec<(&str, JsonValue)>) -> JsonValue {
    JsonValue::Object(entries.into_iter().map(|(k, v)| (k.to_string(), v)).collect())
}

fn red() -> JsonValue {
    obj(vec![("color", s("red"))])
}

/// Drives one exchange over `frames`, as a client call does over the wire.
fn drive<H: FnMut(Record) -> Result<(), String>>(
    kind: RecordKind,
    frames: Vec<Frame>,
    mut handler: H,
) -> Result<(), MorayError> {
    let mut ex = Exchange::new(kind);
    for frame in frames {
        match ex.on_frame(frame) {
            Step::Deliver(rec) => {
                if let Some(done) = ex.on_handled(handler(rec)) {
                    return done;
                }
            }
            Step::Finish(result) => return result,
        }
    }
    Err(MorayError::Protocol("stream ended without an end frame".to_string()))
}

fn object_frame(key: &str, value: JsonValue) -> Frame {
    Frame::Data(obj(vec![("key", s(key)), ("value", value)]))
}

#[test]
fn placeholder() {
    assert_eq!(1, 1);
}

#[test]
fn get_object_delivers_the_one_object() {
    let req = object_request(objects::Methods::Get, "widgets", "w1", objects::MethodOptions::new());
    assert_eq!(req.method, "getObject");
    assert_eq!(req.args, vec![s("widgets"), s("w1"), JsonValue::Object(vec![])]);
    let frames = vec![object_frame("w1", red()), Frame::End(EndStatus::Success)];
    let mut seen: Vec<MorayObject> = Vec::new();
    let r = drive(RecordKind::Objects, frames, |rec| {
        match rec {
            Record::Object(o) => seen.push(o),
            other => panic!("unexpected record {:?}", other),
        }
        Ok(())
    });
    assert_eq!(r, Ok(()));
    assert_eq!(seen.len(), 1);
    assert_eq!(seen[0].key, "w1");
    assert_eq!(seen[0].value, red());
    assert_eq!(seen[0].bucket, None);
    assert_eq!(seen[0].etag, None);
}

#[test]
fn find_objects_with_no_results_succeeds() {
    let req = object_request(objects::Methods::Find, "widgets", "color=red", objects::MethodOptions::new());
    assert_eq!(req.method, "findObjects");
    assert_eq!(req.args[1], s("color=red"));
    let mut calls = 0;
    let r = drive(RecordKind::Objects, vec![Frame::End(EndStatus::Success)], |_| {
        calls += 1;
        Ok(())
    });
    assert_eq!(r, Ok(()));
    assert_eq!(calls, 0);
}

#[test]
fn all_records_arrive_in_order() {
    let frames = vec![
        Frame::Data(s("a")),
        Frame::Data(s("b")),
        Frame::Data(s("c")),
        Frame::End(EndStatus::Success),
    ];
    let mut seen = Vec::new();
    let r = drive(RecordKind::Values, frames, |rec| {
        seen.push(rec);
        Ok(())
    });
    assert_eq!(r, Ok(()));
    assert_eq!(
        seen,
        vec![Record::Value(s("a")), Record::Value(s("b")), Record::Value(s("c"))]
    );
}

#[test]
fn handler_refusal_stops_delivery() {
    let frames = vec![
        Frame::Data(s("a")),
        Frame::Data(s("b")),
        Frame::Data(s("c")),
        Frame::End(EndStatus::Success),
    ];
    let mut seen = Vec::new();
    let r = drive(RecordKind::Values, frames, |rec| {
        seen.push(rec);
        if seen.len() == 2 {
            Err("enough".to_string())
        } else {
            Ok(())
        }
    });
    assert_eq!(r, Err(MorayError::HandlerAborted("enough".to_string())));
    assert_eq!(seen, vec![Record::Value(s("a")), Record::Value(s("b"))]);
}

#[test]
fn remote_error_is_kept_verbatim() {
    let frames = vec![Frame::End(EndStatus::Failure {
        code: "BucketNotFoundError".to_string(),
        message: "widgets does not exist".to_string(),
    })];
    let r = drive(RecordKind::Buckets, frames, |_| Ok(()));
    assert_eq!(
        r,
        Err(MorayError::Remote {
            code: "BucketNotFoundError".to_string(),
            message: "widgets does not exist".to_string(),
        })
    );
}

#[test]
fn malformed_record_is_a_protocol_error() {
    let mut calls = 0;
    let frames = vec![Frame::Data(obj(vec![("value", red())])), Frame::End(EndStatus::Success)];
    let r = drive(RecordKind::Objects, frames, |_| {
        calls += 1;
        Ok(())
    });
    assert!(matches!(r, Err(MorayError::Protocol(_))));
    assert_eq!(calls, 0);
}

#[test]
fn create_bucket_accepts_no_records() {
    let r = drive(RecordKind::Nothing, vec![Frame::Data(s("x")), Frame::End(EndStatus::Success)], |_| Ok(()));
    assert!(matches!(r, Err(MorayError::Protocol(_))));
    let r = drive(RecordKind::Nothing, vec![Frame::End(EndStatus::Success)], |_| Ok(()));
    assert_eq!(r, Ok(()));
}

#[test]
fn created_schema_reads_back_unchanged() {
    let index = vec![
        IndexField { name: "aNumber".to_string(), kind: "number".to_string() },
        IndexField { name: "aString".to_string(), kind: "string".to_string() },
    ];
    let config = buckets::bucket_config(&index);
    let req = create_bucket_request("rust_test_bucket", config, buckets::MethodOptions::new());
    assert_eq!(req.method, "createBucket");
    assert_eq!(req.args.len(), 3);
    let mut args = req.args;
    let idx = match args.remove(1) {
        JsonValue::Object(mut e) => {
            assert_eq!(e.len(), 1);
            assert_eq!(e[0].0, "index");
            e.remove(0).1
        }
        _ => panic!("config is not an object"),
    };
    let record = obj(vec![("name", s("rust_test_bucket")), ("index", idx)]);
    let got = buckets::decode_bucket(&record).unwrap();
    assert_eq!(got, Bucket { name: "rust_test_bucket".to_string(), index });
}

#[test]
fn bucket_config_has_one_type_per_field() {
    let index = vec![IndexField { name: "aNumber".to_string(), kind: "number".to_string() }];
    let config = buckets::bucket_config(&index);
    let expected = obj(vec![("index", obj(vec![("aNumber", obj(vec![("type", s("number"))]))]))]);
    assert_eq!(config, expected);
}

#[test]
fn bucket_record_needs_name_and_typed_index() {
    let ok = obj(vec![("name", s("b")), ("index", obj(vec![("n", obj(vec![("type", s("number"))]))]))]);
    let b = buckets::decode_bucket(&ok).unwrap();
    assert_eq!(b.name, "b");
    assert_eq!(b.index, vec![IndexField { name: "n".to_string(), kind: "number".to_string() }]);
    let empty_name = obj(vec![("name", s("")), ("index", obj(vec![]))]);
    assert!(matches!(buckets::decode_bucket(&empty_name), Err(MorayError::Protocol(_))));
    let untyped = obj(vec![("name", s("b")), ("index", obj(vec![("n", obj(vec![]))]))]);
    assert!(matches!(buckets::decode_bucket(&untyped), Err(MorayError::Protocol(_))));
    let no_index = obj(vec![("name", s("b"))]);
    assert!(buckets::decode_bucket(&no_index).is_err());
}

#[test]
fn object_record_reads_metadata() {
    let v = obj(vec![
        ("bucket", s("widgets")),
        ("key", s("w1")),
        ("value", red()),
        ("_etag", s("ABC123")),
    ]);
    let o = decode_object(v).unwrap();
    assert_eq!(o.bucket, Some("widgets".to_string()));
    assert_eq!(o.key, "w1");
    assert_eq!(o.value, red());
    assert_eq!(o.etag, Some("ABC123".to_string()));
    assert!(decode_object(obj(vec![("key", s("w1"))])).is_err());
    assert!(decode_object(s("w1")).is_err());
}

#[test]
fn first_entry_of_a_name_wins() {
    let entries = vec![
        ("a".to_string(), s("1")),
        ("b".to_string(), s("2")),
        ("a".to_string(), s("3")),
    ];
    assert_eq!(find_key(&entries, "a"), Some(0));
    assert_eq!(find_key(&entries, "b"), Some(1));
    assert_eq!(find_key(&entries, "c"), None);
}

#[test]
fn put_object_confirms_with_an_etag() {
    let req = put_object_request("widgets", "w1", red(), objects::MethodOptions::new());
    assert_eq!(req.method, "putObject");
    assert_eq!(req.args, vec![s("widgets"), s("w1"), red(), JsonValue::Object(vec![])]);
    let rec = decode_record(RecordKind::Etags, obj(vec![("etag", s("E1"))]));
    assert_eq!(rec, Ok(Record::Etag("E1".to_string())));
    assert!(decode_record(RecordKind::Etags, obj(vec![])).is_err());
}

#[test]
fn bucket_requests_carry_their_arguments() {
    let list = list_buckets_request(buckets::MethodOptions::new());
    assert_eq!(list.method, "listBuckets");
    assert_eq!(list.args, vec![JsonValue::Object(vec![])]);
    let opts = buckets::MethodOptions { entries: vec![("noCache".to_string(), JsonValue::Bool(true))] };
    let get = get_bucket_request("widgets", opts);
    assert_eq!(get.method, "getBucket");
    assert_eq!(get.args, vec![s("widgets"), obj(vec![("noCache", JsonValue::Bool(true))])]);
    let listed = bucket_request(buckets::Methods::List, "ignored", buckets::MethodOptions::new());
    assert_eq!(listed.args.len(), 1);
    let got = bucket_request(buckets::Methods::Get, "widgets", buckets::MethodOptions::new());
    assert_eq!(got.method, "getBucket");
}

#[test]
fn sql_request_packs_three_arguments() {
    let req = sql_request("select * from t where a = $1", &vec!["x", "y"], obj(vec![("timeout", JsonValue::Number("30".to_string()))]));
    assert_eq!(req.method, "sql");
    assert_eq!(
        req.args,
        vec![
            s("select * from t where a = $1"),
            JsonValue::Array(vec![s("x"), s("y")]),
            obj(vec![("timeout", JsonValue::Number("30".to_string()))]),
        ]
    );
}

#[test]
fn pool_of_no_connections_is_refused() {
    assert!(matches!(validate_pool_config(0, Some(5000)), Err(MorayError::Config(_))));
    let c = validate_pool_config(1, None).unwrap();
    assert_eq!(c.maximum, 1);
    assert_eq!(c.claim_timeout, None);
    let d = default_pool_config();
    assert_eq!(d.maximum, 5);
    assert_eq!(d.claim_timeout, Some(5000));
}

#[test]
fn claim_timeout_is_a_pool_timeout() {
    let r: Result<u8, MorayError> = claimed(Err(cueball::error::Error::ClaimFailure));
    assert_eq!(r, Err(MorayError::PoolTimeout));
    let r: Result<u8, MorayError> = claimed(Err(cueball::error::Error::ConnectionRetrievalFailure));
    assert!(matches!(r, Err(MorayError::Transport(_))));
    let r: Result<u8, MorayError> = claimed(Ok(7));
    assert_eq!(r, Ok(7));
    assert_eq!(claim_error(ClaimFailure::TimedOut), MorayError::PoolTimeout);
}
