use bytes::Bytes;
use sharded_kv::command::Command;
use sharded_kv::connection::start;
use sharded_kv::connection::step;
use sharded_kv::connection::Action;
use sharded_kv::connection::ConnState;
use sharded_kv::connection::Event;
use sharded_kv::frame::Frame;
use sharded_kv::handler::apply;
use sharded_kv::handler::apply_to_shard;
use sharded_kv::shard::Shard;
use sharded_kv::store::ShardedDb;

fn words(parts: &[&str]) -> Frame {
    Frame::Array(
        parts.iter().map(|part| Frame::Bulk(Bytes::copy_from_slice(part.as_bytes()))).collect(),
    )
}

/// Drives one connection over the frames given, on a store with one owner,
/// and gives the frames written and the state at the end.
fn serve(db: &mut ShardedDb, incoming: Vec<Frame>) -> (Vec<Frame>, ConnState) {
    let count = db.num_shards();
    let mut incoming = incoming.into_iter();
    let mut written = Vec::new();
    let (mut state, mut action) = start();
    loop {
        let event = match action {
            Action::Read => match incoming.next() {
                Some(frame) => Event::FrameRead(frame),
                None => Event::Eof,
            },
            Action::Apply { shard, command } => {
                assert_eq!(Some(shard), command.key().map(|key| db.find_shard(key)));
                Event::Applied(apply(db, command))
            }
            Action::Write(frame) => {
                written.push(frame);
                Event::Written
            }
            Action::Stop => return (written, state),
        };
        (state, action) = step(state, event, count);
    }
}

#[test]
fn fresh_connection_reads_first() {
    assert_eq!(start(), (ConnState::Reading, Action::Read));
}

#[test]
fn session_answers_frames_in_order() {
    let mut db = ShardedDb::new(1).unwrap();
    let (written, state) = serve(
        &mut db,
        vec![
            words(&["SET", "a", "1"]),
            words(&["SET", "b", "2"]),
            words(&["GET", "a"]),
            words(&["GET", "b"]),
            words(&["GET", "c"]),
        ],
    );
    assert_eq!(
        written,
        vec![
            Frame::Simple("OK".to_string()),
            Frame::Simple("OK".to_string()),
            Frame::Bulk(Bytes::from_static(b"1")),
            Frame::Bulk(Bytes::from_static(b"2")),
            Frame::Null,
        ]
    );
    assert_eq!(state, ConnState::Closed);
}

#[test]
fn session_goes_on_after_a_malformed_frame() {
    let mut db = ShardedDb::new(10).unwrap();
    let (written, state) = serve(
        &mut db,
        vec![words(&["SET", "onlykey"]), words(&["SET", "k", "v"]), words(&["GET", "k"])],
    );
    assert_eq!(
        written,
        vec![
            Frame::Error("ERR wrong number of arguments".to_string()),
            Frame::Simple("OK".to_string()),
            Frame::Bulk(Bytes::from_static(b"v")),
        ]
    );
    assert_eq!(state, ConnState::Closed);
}

#[test]
fn session_goes_on_after_an_unsupported_command() {
    let mut db = ShardedDb::new(10).unwrap();
    db.insert("a", Bytes::from_static(b"1"));
    let (written, state) = serve(&mut db, vec![words(&["DEL", "a"]), words(&["GET", "a"])]);
    assert_eq!(
        written,
        vec![
            Frame::Error("ERR unknown command 'DEL'".to_string()),
            Frame::Bulk(Bytes::from_static(b"1")),
        ]
    );
    assert_eq!(state, ConnState::Closed);
}

#[test]
fn store_outlives_a_connection() {
    let mut db = ShardedDb::new(4).unwrap();
    let (_, first) = serve(&mut db, vec![words(&["SET", "k", "v"])]);
    let (written, second) = serve(&mut db, vec![words(&["GET", "k"])]);
    assert_eq!(first, ConnState::Closed);
    assert_eq!(second, ConnState::Closed);
    assert_eq!(written, vec![Frame::Bulk(Bytes::from_static(b"v"))]);
}

#[test]
fn reading_a_command_with_a_key_sends_it_to_its_shard() {
    let db = ShardedDb::new(7).unwrap();
    let home = db.find_shard("k");
    assert_eq!(
        step(ConnState::Reading, Event::FrameRead(words(&["GET", "k"])), 7),
        (
            ConnState::Applying,
            Action::Apply { shard: home, command: Command::Get { key: "k".to_string() } }
        )
    );
    assert_eq!(
        step(ConnState::Reading, Event::FrameRead(words(&["set", "k", "v"])), 7),
        (
            ConnState::Applying,
            Action::Apply {
                shard: home,
                command: Command::SetValue {
                    key: "k".to_string(),
                    value: Bytes::from_static(b"v")
                },
            }
        )
    );
}

#[test]
fn reading_what_cannot_be_carried_out_is_answered_at_once() {
    assert_eq!(
        step(ConnState::Reading, Event::FrameRead(words(&["DEL", "a"])), 3),
        (
            ConnState::Responding,
            Action::Write(Frame::Error("ERR unknown command 'DEL'".to_string()))
        )
    );
    assert_eq!(
        step(ConnState::Reading, Event::FrameRead(Frame::Integer(5)), 3),
        (
            ConnState::Responding,
            Action::Write(Frame::Error("ERR protocol error; expected array".to_string()))
        )
    );
}

#[test]
fn end_of_stream_closes_and_read_failure_fails() {
    assert_eq!(step(ConnState::Reading, Event::Eof, 1), (ConnState::Closed, Action::Stop));
    assert_eq!(step(ConnState::Reading, Event::ReadFailed, 1), (ConnState::Failed, Action::Stop));
}

#[test]
fn applied_response_is_written() {
    assert_eq!(
        step(ConnState::Applying, Event::Applied(Frame::Null), 1),
        (ConnState::Responding, Action::Write(Frame::Null))
    );
}

#[test]
fn written_response_leads_back_to_reading() {
    assert_eq!(step(ConnState::Responding, Event::Written, 1), (ConnState::Reading, Action::Read));
    assert_eq!(
        step(ConnState::Responding, Event::WriteFailed, 1),
        (ConnState::Failed, Action::Stop)
    );
}

#[test]
fn ended_connection_stays_ended() {
    for state in [ConnState::Closed, ConnState::Failed] {
        assert_eq!(step(state, Event::Written, 2), (state, Action::Stop));
        assert_eq!(step(state, Event::Eof, 2), (state, Action::Stop));
        assert_eq!(step(state, Event::FrameRead(words(&["GET", "a"])), 2), (state, Action::Stop));
    }
}

#[test]
fn event_out_of_turn_fails_the_connection() {
    assert_eq!(step(ConnState::Reading, Event::Written, 2), (ConnState::Failed, Action::Stop));
    assert_eq!(
        step(ConnState::Reading, Event::Applied(Frame::Null), 2),
        (ConnState::Failed, Action::Stop)
    );
    assert_eq!(step(ConnState::Applying, Event::Eof, 2), (ConnState::Failed, Action::Stop));
    assert_eq!(
        step(ConnState::Responding, Event::FrameRead(Frame::Null), 2),
        (ConnState::Failed, Action::Stop)
    );
}

#[test]
fn shards_held_apart_serve_like_the_store() {
    let count = 5;
    let mut shards: Vec<Shard> = ShardedDb::new(count).unwrap().into_shards();
    let mut written = Vec::new();
    let frames = vec![
        words(&["SET", "a", "1"]),
        words(&["SET", "b", "2"]),
        words(&["PING"]),
        words(&["GET", "a"]),
        words(&["GET", "b"]),
        words(&["GET", "c"]),
    ];
    for frame in frames {
        let (state, action) = step(ConnState::Reading, Event::FrameRead(frame), count);
        let (state, action) = match action {
            Action::Apply { shard, command } => {
                assert_eq!(state, ConnState::Applying);
                step(state, Event::Applied(apply_to_shard(&mut shards[shard], command)), count)
            }
            other => (state, other),
        };
        assert_eq!(state, ConnState::Responding);
        match action {
            Action::Write(response) => written.push(response),
            _ => unreachable!(),
        }
    }
    assert_eq!(
        written,
        vec![
            Frame::Simple("OK".to_string()),
            Frame::Simple("OK".to_string()),
            Frame::Error("ERR unknown command 'PING'".to_string()),
            Frame::Bulk(Bytes::from_static(b"1")),
            Frame::Bulk(Bytes::from_static(b"2")),
            Frame::Null,
        ]
    );
}
