//! What holds of the store and of the connection machine as a whole, proved
//! from the definitions that the contracts use.

use crate::command::decode;
use crate::command::key_of;
use crate::command::CommandView;
use crate::command::DecodeError;
use crate::connection::after_frame;
use crate::connection::ActionView;
use crate::connection::ConnState;
use crate::frame::FrameView;
use crate::handler::effect;
use crate::handler::effect_all;
use crate::handler::effect_of_decoded;
use crate::handler::reply;
use crate::handler::reply_to_decoded;
use crate::handler::writes_key;
use crate::routing::shard_of_key;
use crate::store::ShardedDb;
use vstd::prelude::*;

verus! {

/// A value that was set is read back, whole, by every later `Get` of its key,
/// whatever commands come in between, as long as none of them sets that key
/// again.
pub proof fn lemma_set_is_read_back(
    contents: Map<Seq<char>, Seq<u8>>,
    key: Seq<char>,
    value: Seq<u8>,
    later: Seq<CommandView>,
)
    requires
        forall|index: int| 0 <= index < later.len() ==> !writes_key(#[trigger] later[index], key),
    ensures
        reply(
            effect_all(effect(contents, CommandView::SetValue { key, value }), later),
            CommandView::Get { key },
        ) == FrameView::Bulk(value),
    decreases later.len(),
{
    let written = effect(contents, CommandView::SetValue { key, value });
    if later.len() > 0 {
        lemma_set_is_read_back(contents, key, value, later.drop_last());
        let before = effect_all(written, later.drop_last());
        assert(!writes_key(later.last(), key));
        assert(effect(before, later.last()).contains_key(key));
        assert(effect(before, later.last())[key] == before[key]);
    }
}

/// A `Get` of a key that no command has set is answered with null, not with
/// an error, on a store that started empty.
pub proof fn lemma_unwritten_key_is_absent(history: Seq<CommandView>, key: Seq<char>)
    requires
        forall|index: int|
            0 <= index < history.len() ==> !writes_key(#[trigger] history[index], key),
    ensures
        !effect_all(Map::empty(), history).contains_key(key),
        reply(effect_all(Map::empty(), history), CommandView::Get { key }) == FrameView::Null,
    decreases history.len(),
{
    if history.len() > 0 {
        lemma_unwritten_key_is_absent(history.drop_last(), key);
        assert(!writes_key(history.last(), key));
    }
}

/// Two values set under one key, one after the other, leave the key with the
/// whole of the value set last. So a `Get` after two such writes, in
/// whichever order they were carried out, gives one of the two values and
/// never a mix of them.
pub proof fn lemma_last_set_wins(
    contents: Map<Seq<char>, Seq<u8>>,
    key: Seq<char>,
    first: Seq<u8>,
    second: Seq<u8>,
)
    ensures
        reply(
            effect(
                effect(contents, CommandView::SetValue { key, value: first }),
                CommandView::SetValue { key, value: second },
            ),
            CommandView::Get { key },
        ) == FrameView::Bulk(second),
        reply(
            effect(
                effect(contents, CommandView::SetValue { key, value: second }),
                CommandView::SetValue { key, value: first },
            ),
            CommandView::Get { key },
        ) == FrameView::Bulk(first),
{
}

/// A command changes no key but the one that it sets.
pub proof fn lemma_other_keys_keep_their_values(
    contents: Map<Seq<char>, Seq<u8>>,
    command: CommandView,
    key: Seq<char>,
)
    requires
        !writes_key(command, key),
    ensures
        reply(effect(contents, command), CommandView::Get { key }) == reply(
            contents,
            CommandView::Get { key },
        ),
{
}

/// The shard that a command's key is routed to answers for the whole store:
/// carried out on that shard alone, the command gets the response that it
/// gets on the store.
pub proof fn lemma_home_shard_answers_for_store(db: &ShardedDb, command: CommandView)
    requires
        db.wf(),
        key_of(command) is Some,
    ensures
        reply(
            db.shard_view(shard_of_key(key_of(command)->0, db.shard_count()) as int),
            command,
        ) == reply(db@, command),
{
    db.lemma_view_by_shard(key_of(command)->0);
}

/// A response is a simple string, an error, a bulk string or null: never an
/// array and never a number.
pub proof fn lemma_response_is_flat(
    contents: Map<Seq<char>, Seq<u8>>,
    decoded: Result<CommandView, DecodeError>,
)
    ensures
        !(reply_to_decoded(contents, decoded) is Array),
        !(reply_to_decoded(contents, decoded) is Integer),
{
}

/// With at least one shard, every key is routed to one of the shards: the
/// index depends on the key and the number of shards alone and lies below
/// that number.
pub proof fn lemma_route_in_range(key: Seq<char>, num_shards: nat)
    requires
        num_shards >= 1,
    ensures
        shard_of_key(key, num_shards) < num_shards,
{
}

/// The connection machine and `respond` agree. Where the machine sends a
/// command to a shard, carrying it out gives the response and the contents
/// that `respond` gives; where it answers at once, the response is that of
/// `respond` and the store stays as it was.
pub proof fn lemma_machine_agrees_with_respond(
    contents: Map<Seq<char>, Seq<u8>>,
    frame: FrameView,
    num_shards: nat,
)
    ensures
        match after_frame(frame, num_shards) {
            (state, ActionView::Apply { shard, command }) => {
                &&& state == ConnState::Applying
                &&& key_of(command) matches Some(key) && shard == shard_of_key(key, num_shards)
                &&& reply(contents, command) == reply_to_decoded(contents, decode(frame))
                &&& effect(contents, command) == effect_of_decoded(contents, decode(frame))
            },
            (state, ActionView::Write(response)) => {
                &&& state == ConnState::Responding
                &&& response is Error
                &&& response == reply_to_decoded(contents, decode(frame))
                &&& contents == effect_of_decoded(contents, decode(frame))
            },
            _ => false,
        },
{
}

} // verus!
