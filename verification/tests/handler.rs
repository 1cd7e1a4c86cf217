use bytes::Bytes;
use sharded_kv::command::Command;
use sharded_kv::command::DecodeError;
use sharded_kv::frame::Frame;
use sharded_kv::handler::apply;
use sharded_kv::handler::apply_to_shard;
use sharded_kv::handler::refuse;
use sharded_kv::handler::respond;
use sharded_kv::handler::unsupported;
use sharded_kv::shard::Shard;
use sharded_kv::store::ShardedDb;

fn request(words: &[&str]) -> Frame {
    Frame::Array(
        words.iter().map(|word| Frame::Bulk(Bytes::copy_from_slice(word.as_bytes()))).collect(),
    )
}

fn ok() -> Frame {
    Frame::Simple("OK".to_string())
}

#[test]
fn set_twice_then_get_on_one_shard() {
    let mut db = ShardedDb::new(1).unwrap();
    assert_eq!(respond(&mut db, request(&["SET", "a", "1"])), ok());
    assert_eq!(respond(&mut db, request(&["SET", "b", "2"])), ok());
    assert_eq!(respond(&mut db, request(&["GET", "a"])), Frame::Bulk(Bytes::from_static(b"1")));
    assert_eq!(respond(&mut db, request(&["GET", "b"])), Frame::Bulk(Bytes::from_static(b"2")));
    assert_eq!(respond(&mut db, request(&["GET", "c"])), Frame::Null);
}

#[test]
fn malformed_set_gets_an_error_and_the_store_goes_on() {
    let mut db = ShardedDb::new(10).unwrap();
    let response = respond(&mut db, request(&["SET", "onlykey"]));
    assert_eq!(response, Frame::Error("ERR wrong number of arguments".to_string()));
    assert_eq!(db.get("onlykey"), None);
    assert_eq!(respond(&mut db, request(&["SET", "onlykey", "v"])), ok());
    assert_eq!(
        respond(&mut db, request(&["GET", "onlykey"])),
        Frame::Bulk(Bytes::from_static(b"v"))
    );
}

#[test]
fn del_is_refused_by_name_and_changes_nothing() {
    let mut db = ShardedDb::new(10).unwrap();
    db.insert("a", Bytes::from_static(b"1"));
    let response = respond(&mut db, request(&["DEL", "a"]));
    assert_eq!(response, Frame::Error("ERR unknown command 'DEL'".to_string()));
    match response {
        Frame::Error(message) => assert!(message.contains("DEL")),
        _ => unreachable!(),
    }
    assert_eq!(db.get("a"), Some(Bytes::from_static(b"1")));
}

#[test]
fn get_miss_is_null_and_no_error() {
    let mut db = ShardedDb::new(3).unwrap();
    let response = respond(&mut db, request(&["get", "nothing here"]));
    assert_eq!(response, Frame::Null);
    assert!(!matches!(response, Frame::Error(_)));
}

#[test]
fn set_overwrites_through_frames() {
    let mut db = ShardedDb::new(4).unwrap();
    assert_eq!(respond(&mut db, request(&["set", "k", "one"])), ok());
    assert_eq!(respond(&mut db, request(&["SET", "k", "two"])), ok());
    assert_eq!(respond(&mut db, request(&["GET", "k"])), Frame::Bulk(Bytes::from_static(b"two")));
}

#[test]
fn empty_value_is_a_bulk_and_not_null() {
    let mut db = ShardedDb::new(4).unwrap();
    assert_eq!(respond(&mut db, request(&["SET", "k", ""])), ok());
    assert_eq!(respond(&mut db, request(&["GET", "k"])), Frame::Bulk(Bytes::new()));
}

#[test]
fn frames_that_are_no_commands_get_errors() {
    let mut db = ShardedDb::new(2).unwrap();
    assert_eq!(
        respond(&mut db, Frame::Null),
        Frame::Error("ERR protocol error; expected array".to_string())
    );
    assert_eq!(
        respond(&mut db, Frame::Array(vec![])),
        Frame::Error("ERR protocol error; empty command".to_string())
    );
    assert_eq!(
        respond(&mut db, Frame::Array(vec![Frame::Integer(1)])),
        Frame::Error("ERR protocol error; expected bulk string".to_string())
    );
    assert_eq!(
        respond(&mut db, Frame::Array(vec![Frame::Bulk(Bytes::from_static(&[0xff]))])),
        Frame::Error("ERR protocol error; invalid string".to_string())
    );
    assert_eq!(
        respond(&mut db, request(&["GET"])),
        Frame::Error("ERR wrong number of arguments".to_string())
    );
}

#[test]
fn every_decode_error_has_its_message() {
    assert_eq!(DecodeError::NotArray.message(), "ERR protocol error; expected array");
    assert_eq!(DecodeError::Empty.message(), "ERR protocol error; empty command");
    assert_eq!(DecodeError::NotBulk.message(), "ERR protocol error; expected bulk string");
    assert_eq!(DecodeError::InvalidString.message(), "ERR protocol error; invalid string");
    assert_eq!(DecodeError::WrongArity.message(), "ERR wrong number of arguments");
    assert_eq!(
        refuse(DecodeError::Empty),
        Frame::Error("ERR protocol error; empty command".to_string())
    );
}

#[test]
fn unsupported_names_the_command() {
    assert_eq!(unsupported("DEL"), Frame::Error("ERR unknown command 'DEL'".to_string()));
    assert_eq!(unsupported(""), Frame::Error("ERR unknown command ''".to_string()));
}

#[test]
fn apply_carries_out_each_command() {
    let mut db = ShardedDb::new(6).unwrap();
    assert_eq!(apply(&mut db, Command::Get { key: "k".to_string() }), Frame::Null);
    assert_eq!(
        apply(
            &mut db,
            Command::SetValue { key: "k".to_string(), value: Bytes::from_static(b"v") }
        ),
        ok()
    );
    assert_eq!(
        apply(&mut db, Command::Get { key: "k".to_string() }),
        Frame::Bulk(Bytes::from_static(b"v"))
    );
    assert_eq!(
        apply(&mut db, Command::Unsupported { name: "FLUSHALL".to_string() }),
        Frame::Error("ERR unknown command 'FLUSHALL'".to_string())
    );
    assert_eq!(db.get("k"), Some(Bytes::from_static(b"v")));
    assert_eq!(db.num_shards(), 6);
}

#[test]
fn apply_to_shard_carries_out_each_command() {
    let mut shard = Shard::new();
    assert_eq!(apply_to_shard(&mut shard, Command::Get { key: "k".to_string() }), Frame::Null);
    assert_eq!(
        apply_to_shard(
            &mut shard,
            Command::SetValue { key: "k".to_string(), value: Bytes::from_static(b"v") }
        ),
        ok()
    );
    assert_eq!(
        apply_to_shard(&mut shard, Command::Get { key: "k".to_string() }),
        Frame::Bulk(Bytes::from_static(b"v"))
    );
    assert_eq!(
        apply_to_shard(&mut shard, Command::Unsupported { name: "DEL".to_string() }),
        Frame::Error("ERR unknown command 'DEL'".to_string())
    );
    assert_eq!(shard.get("k"), Some(Bytes::from_static(b"v")));
}

#[test]
fn writes_to_other_keys_leave_a_key_alone() {
    let mut db = ShardedDb::new(3).unwrap();
    assert_eq!(respond(&mut db, request(&["SET", "k", "v"])), ok());
    for number in 0..50 {
        let other = format!("other-{number}");
        assert_eq!(respond(&mut db, request(&["SET", &other, "x"])), ok());
        assert_eq!(respond(&mut db, request(&["DEL", "k"])),
            Frame::Error("ERR unknown command 'DEL'".to_string()));
    }
    assert_eq!(respond(&mut db, request(&["GET", "k"])), Frame::Bulk(Bytes::from_static(b"v")));
}
