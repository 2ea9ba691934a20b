use vstd::prelude::*;

use crate::ibc::{channel_record, IbcChannel};
use crate::state::{reply_id_after, ChannelInfo, StateView};
use crate::table::map_get;

verus! {

/// After a channel is connected, looking it up gives the record made from it;
/// after it is then closed, looking it up gives nothing.
pub proof fn law_connected_channel_lookup(v: StateView, channel: IbcChannel)
    ensures
        map_get(v.with_channel(channel_record(channel)).channels, channel.endpoint.channel_id@)
            == Some(channel_record(channel)),
        map_get(
            v.with_channel(channel_record(channel)).without_channel(
                channel.endpoint.channel_id@,
            ).channels,
            channel.endpoint.channel_id@,
        ) == None::<ChannelInfo>,
{
}

/// A route that is registered and then unregistered is gone.
pub proof fn law_route_register_unregister(
    v: StateView,
    key: Option<Seq<char>>,
    connection_id: Seq<char>,
)
    ensures
        v.with_route(key, connection_id).routes.contains_key(key),
        v.with_route(key, connection_id).routes[key] == connection_id,
        !v.with_route(key, connection_id).without_route(key).routes.contains_key(key),
{
}

/// A reply to a pending registration adds exactly one ownership entry: the
/// returned query id, owned by the channel that waited on that reply.
pub proof fn law_reply_creates_one_owner(v: StateView, reply_id: u64, query_id: u64)
    requires
        v.pending.contains_key(reply_id),
    ensures
        v.with_query_created(reply_id, query_id).ownership.dom() == v.ownership.dom().insert(
            query_id,
        ),
        v.with_query_created(reply_id, query_id).ownership[query_id] == v.pending[reply_id],
        !v.with_query_created(reply_id, query_id).pending.contains_key(reply_id),
{
}

/// A dispatch from a state whose next reply id is free leaves every earlier
/// pending registration as it was: the new entry adds a key, it overwrites none.
pub proof fn law_dispatch_keeps_earlier_waits(v: StateView, channel_id: Seq<char>)
    requires
        !v.pending.contains_key(v.next_reply_id),
    ensures
        v.with_dispatch(channel_id).pending.dom() == v.pending.dom().insert(v.next_reply_id),
        v.with_dispatch(channel_id).pending[v.next_reply_id] == channel_id,
        forall|id: u64| #[trigger]
            v.pending.contains_key(id) ==> v.with_dispatch(channel_id).pending[id] == v.pending[id],
{
}

/// Two registrations dispatched one after the other, for channels `a` and
/// `b`, each have their own reply id; whatever order the replies come in,
/// each returned query id is owned by the channel whose registration created
/// it, never by the other.
pub proof fn law_concurrent_replies_stay_apart(
    v: StateView,
    a: Seq<char>,
    b: Seq<char>,
    query_a: u64,
    query_b: u64,
)
    requires
        query_a != query_b,
    ensures
        ({
            let reply_a = v.next_reply_id;
            let reply_b = v.with_dispatch(a).next_reply_id;
            let both = v.with_dispatch(a).with_dispatch(b);
            let b_first = both.with_query_created(reply_b, query_b).with_query_created(
                reply_a,
                query_a,
            );
            let a_first = both.with_query_created(reply_a, query_a).with_query_created(
                reply_b,
                query_b,
            );
            &&& reply_a != reply_b
            &&& b_first.ownership[query_a] == a && b_first.ownership[query_b] == b
            &&& a_first.ownership[query_a] == a && a_first.ownership[query_b] == b
            &&& b_first.ownership.dom() == v.ownership.dom().insert(query_a).insert(query_b)
            &&& a_first.ownership.dom() == v.ownership.dom().insert(query_a).insert(query_b)
        }),
{
    let reply_a = v.next_reply_id;
    let reply_b = reply_id_after(reply_a);
    assert(reply_a != reply_b);
    let both = v.with_dispatch(a).with_dispatch(b);
    assert(both.pending[reply_a] == a);
    assert(both.pending[reply_b] == b);
    let b_first = both.with_query_created(reply_b, query_b);
    assert(b_first.pending.contains_key(reply_a));
    let a_first = both.with_query_created(reply_a, query_a);
    assert(a_first.pending.contains_key(reply_b));
    assert(b_first.with_query_created(reply_a, query_a).ownership.dom() =~= v.ownership.dom().insert(
        query_a,
    ).insert(query_b));
    assert(a_first.with_query_created(reply_b, query_b).ownership.dom() =~= v.ownership.dom().insert(
        query_a,
    ).insert(query_b));
}

} // verus!
