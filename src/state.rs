use vstd::prelude::*;

use crate::msg::InstantiateMsg;
use crate::table::{
    keys_unique, lemma_table_absent, lemma_table_get, lemma_table_push, lemma_table_remove,
    lemma_table_update, map_get, table_view,
};

verus! {

/// The reply identifier given to the first registration dispatched.
pub const ICQ_CREATED_RECEIVE_ID: u64 = 1337;

/// One end of a channel: a port and a channel on it.
#[derive(Clone, Debug, PartialEq, Eq)]
pub struct IbcEndpoint {
    pub port_id: String,
    pub channel_id: String,
}

/// Static information on an established channel.
#[derive(Clone, Debug, PartialEq, Eq)]
pub struct ChannelInfo {
    /// id of this channel
    pub id: String,
    /// the remote channel/port we connect to
    pub counterparty_endpoint: IbcEndpoint,
    /// the connection this exists on
    pub connection_id: String,
}

/// The connection over which queries for a remote chain are registered.
#[derive(Clone, Debug, PartialEq, Eq)]
pub struct ChannelRoute {
    pub chain_id: Option<String>,
    pub connection_id: String,
}

/// A dispatched registration waiting for its reply, and the channel that asked for it.
#[derive(Clone, Debug, PartialEq, Eq)]
pub struct PendingCorrelation {
    pub reply_id: u64,
    pub channel_id: String,
}

/// A registered query and the channel its results are delivered to.
#[derive(Clone, Debug, PartialEq, Eq)]
pub struct QueryOwnership {
    pub query_id: u64,
    pub channel_id: String,
}

/// Everything the contract keeps between calls.
#[derive(Clone, Debug, PartialEq, Eq)]
pub struct ContractState {
    pub admin: String,
    pub channels: Vec<ChannelInfo>,
    pub routes: Vec<ChannelRoute>,
    pub pending: Vec<PendingCorrelation>,
    pub ownership: Vec<QueryOwnership>,
    /// The reply identifier that the next dispatched registration gets.
    pub next_reply_id: u64,
}

/// The contract's state as maps.
pub struct StateView {
    pub admin: Seq<char>,
    /// channel id to channel
    pub channels: Map<Seq<char>, ChannelInfo>,
    /// remote chain (none for the default route) to connection id
    pub routes: Map<Option<Seq<char>>, Seq<char>>,
    /// reply id to the channel that dispatched the registration
    pub pending: Map<u64, Seq<char>>,
    /// query id to the channel that owns the query
    pub ownership: Map<u64, Seq<char>>,
    pub next_reply_id: u64,
}

/// The key under which a route for `chain_id` is kept.
pub open spec fn chain_key(chain_id: Option<String>) -> Option<Seq<char>> {
    match chain_id {
        Some(c) => Some(c@),
        None => None,
    }
}

/// The reply identifier that follows `id`; identifiers wrap around.
pub open spec fn reply_id_after(id: u64) -> u64 {
    if id == u64::MAX {
        0
    } else {
        (id + 1) as u64
    }
}

/// Channels are keyed by their id.
pub open spec fn channel_key() -> spec_fn(ChannelInfo) -> Seq<char> {
    |e: ChannelInfo| e.id@
}

pub open spec fn channel_val() -> spec_fn(ChannelInfo) -> ChannelInfo {
    |e: ChannelInfo| e
}

/// Routes are keyed by their remote chain.
pub open spec fn route_key() -> spec_fn(ChannelRoute) -> Option<Seq<char>> {
    |e: ChannelRoute| chain_key(e.chain_id)
}

pub open spec fn route_val() -> spec_fn(ChannelRoute) -> Seq<char> {
    |e: ChannelRoute| e.connection_id@
}

/// Pending registrations are keyed by their reply id.
pub open spec fn pending_key() -> spec_fn(PendingCorrelation) -> u64 {
    |e: PendingCorrelation| e.reply_id
}

pub open spec fn pending_val() -> spec_fn(PendingCorrelation) -> Seq<char> {
    |e: PendingCorrelation| e.channel_id@
}

/// Query ownership is keyed by the query id.
pub open spec fn owner_key() -> spec_fn(QueryOwnership) -> u64 {
    |e: QueryOwnership| e.query_id
}

pub open spec fn owner_val() -> spec_fn(QueryOwnership) -> Seq<char> {
    |e: QueryOwnership| e.channel_id@
}

impl StateView {
    /// The state right after instantiation by `admin`.
    pub open spec fn initial(admin: Seq<char>) -> StateView {
        StateView {
            admin,
            channels: Map::empty(),
            routes: Map::empty(),
            pending: Map::empty(),
            ownership: Map::empty(),
            next_reply_id: ICQ_CREATED_RECEIVE_ID,
        }
    }

    pub open spec fn with_channel(self, info: ChannelInfo) -> StateView {
        StateView { channels: self.channels.insert(info.id@, info), ..self }
    }

    pub open spec fn without_channel(self, id: Seq<char>) -> StateView {
        StateView { channels: self.channels.remove(id), ..self }
    }

    pub open spec fn with_route(self, key: Option<Seq<char>>, connection_id: Seq<char>) -> StateView {
        StateView { routes: self.routes.insert(key, connection_id), ..self }
    }

    pub open spec fn without_route(self, key: Option<Seq<char>>) -> StateView {
        StateView { routes: self.routes.remove(key), ..self }
    }

    /// A registration for `channel_id` is dispatched under the next reply id.
    pub open spec fn with_dispatch(self, channel_id: Seq<char>) -> StateView {
        StateView {
            pending: self.pending.insert(self.next_reply_id, channel_id),
            next_reply_id: reply_id_after(self.next_reply_id),
            ..self
        }
    }

    /// The registration dispatched under `reply_id` created query `query_id`:
    /// the query now belongs to the channel that asked for it.
    pub open spec fn with_query_created(self, reply_id: u64, query_id: u64) -> StateView {
        StateView {
            ownership: self.ownership.insert(query_id, self.pending[reply_id]),
            pending: self.pending.remove(reply_id),
            ..self
        }
    }

    pub open spec fn without_query(self, query_id: u64) -> StateView {
        StateView { ownership: self.ownership.remove(query_id), ..self }
    }
}

impl ChannelInfo {
    /// A copy of this record.
    pub fn copied(&self) -> (r: ChannelInfo)
        ensures
            r == *self,
    {
        ChannelInfo {
            id: self.id.clone(),
            counterparty_endpoint: IbcEndpoint {
                port_id: self.counterparty_endpoint.port_id.clone(),
                channel_id: self.counterparty_endpoint.channel_id.clone(),
            },
            connection_id: self.connection_id.clone(),
        }
    }
}

/// Whether two route keys are the same.
fn same_chain(a: &Option<String>, b: &Option<String>) -> (r: bool)
    ensures
        r == (chain_key(*a) == chain_key(*b)),
{
    match (a, b) {
        (Some(x), Some(y)) => *x == *y,
        (None, None) => true,
        _ => false,
    }
}

/// A copy of a route key.
fn copy_chain(a: &Option<String>) -> (r: Option<String>)
    ensures
        r == *a,
{
    match a {
        Some(x) => Some(x.clone()),
        None => None,
    }
}

impl View for ContractState {
    type V = StateView;

    open spec fn view(&self) -> StateView {
        StateView {
            admin: self.admin@,
            channels: table_view(self.channels@, channel_key(), channel_val()),
            routes: table_view(self.routes@, route_key(), route_val()),
            pending: table_view(self.pending@, pending_key(), pending_val()),
            ownership: table_view(self.ownership@, owner_key(), owner_val()),
            next_reply_id: self.next_reply_id,
        }
    }
}

impl ContractState {
    /// No key occurs twice in any table.
    pub open spec fn wf(&self) -> bool {
        &&& keys_unique(self.channels@, channel_key())
        &&& keys_unique(self.routes@, route_key())
        &&& keys_unique(self.pending@, pending_key())
        &&& keys_unique(self.ownership@, owner_key())
        &&& !self@.pending.contains_key(self.next_reply_id)
    }

    /// The state of a freshly instantiated contract, administered by the
    /// account `admin` that instantiated it.
    pub fn instantiate(admin: String, _msg: InstantiateMsg) -> (s: ContractState)
        ensures
            s.wf(),
            s@ == StateView::initial(admin@),
    {
        let s = ContractState {
            admin,
            channels: Vec::new(),
            routes: Vec::new(),
            pending: Vec::new(),
            ownership: Vec::new(),
            next_reply_id: ICQ_CREATED_RECEIVE_ID,
        };
        assert(s@.channels =~= Map::empty());
        assert(s@.routes =~= Map::empty());
        assert(s@.pending =~= Map::empty());
        assert(s@.ownership =~= Map::empty());
        s
    }

    /// Checks the tables for repeated keys.
    pub fn is_well_formed(&self) -> (r: bool)
        ensures
            r == self.wf(),
    {
        let mut i: usize = 0;
        while i < self.channels.len()
            invariant
                i <= self.channels.len(),
                forall|p: int, q: int|
                    0 <= p < i && 0 <= q < self.channels.len() && p != q ==> self.channels@[p].id@
                        != self.channels@[q].id@,
            decreases self.channels.len() - i,
        {
            let mut j: usize = 0;
            while j < self.channels.len()
                invariant
                    i < self.channels.len(),
                    j <= self.channels.len(),
                    forall|q: int|
                        0 <= q < j && q != i ==> self.channels@[i as int].id@ != self.channels@[q].id@,
                decreases self.channels.len() - j,
            {
                if j != i && self.channels[i].id == self.channels[j].id {
                    return false;
                }
                j = j + 1;
            }
            i = i + 1;
        }
        let mut i: usize = 0;
        while i < self.routes.len()
            invariant
                i <= self.routes.len(),
                forall|p: int, q: int|
                    0 <= p < i && 0 <= q < self.routes.len() && p != q ==> chain_key(
                        self.routes@[p].chain_id,
                    ) != chain_key(self.routes@[q].chain_id),
            decreases self.routes.len() - i,
        {
            let mut j: usize = 0;
            while j < self.routes.len()
                invariant
                    i < self.routes.len(),
                    j <= self.routes.len(),
                    forall|q: int|
                        0 <= q < j && q != i ==> chain_key(self.routes@[i as int].chain_id)
                            != chain_key(self.routes@[q].chain_id),
                decreases self.routes.len() - j,
            {
                if j != i && same_chain(&self.routes[i].chain_id, &self.routes[j].chain_id) {
                    return false;
                }
                j = j + 1;
            }
            i = i + 1;
        }
        let mut i: usize = 0;
        while i < self.pending.len()
            invariant
                i <= self.pending.len(),
                forall|p: int, q: int|
                    0 <= p < i && 0 <= q < self.pending.len() && p != q
                        ==> self.pending@[p].reply_id != self.pending@[q].reply_id,
            decreases self.pending.len() - i,
        {
            let mut j: usize = 0;
            while j < self.pending.len()
                invariant
                    i < self.pending.len(),
                    j <= self.pending.len(),
                    forall|q: int|
                        0 <= q < j && q != i ==> self.pending@[i as int].reply_id
                            != self.pending@[q].reply_id,
                decreases self.pending.len() - j,
            {
                if j != i && self.pending[i].reply_id == self.pending[j].reply_id {
                    return false;
                }
                j = j + 1;
            }
            i = i + 1;
        }
        let mut i: usize = 0;
        while i < self.ownership.len()
            invariant
                i <= self.ownership.len(),
                forall|p: int, q: int|
                    0 <= p < i && 0 <= q < self.ownership.len() && p != q
                        ==> self.ownership@[p].query_id != self.ownership@[q].query_id,
            decreases self.ownership.len() - i,
        {
            let mut j: usize = 0;
            while j < self.ownership.len()
                invariant
                    i < self.ownership.len(),
                    j <= self.ownership.len(),
                    forall|q: int|
                        0 <= q < j && q != i ==> self.ownership@[i as int].query_id
                            != self.ownership@[q].query_id,
                decreases self.ownership.len() - j,
            {
                if j != i && self.ownership[i].query_id == self.ownership[j].query_id {
                    return false;
                }
                j = j + 1;
            }
            i = i + 1;
        }
        match self.find_pending(self.next_reply_id) {
            Some(i) => {
                assert(self@.pending.contains_key(pending_key()(self.pending@[i as int])));
                false
            },
            None => {
                proof {
                    lemma_table_absent(
                        self.pending@,
                        pending_key(),
                        pending_val(),
                        self.next_reply_id,
                    );
                }
                true
            },
        }
    }
    fn find_channel(&self, id: &String) -> (r: Option<usize>)
        ensures
            match r {
                Some(i) => i < self.channels.len() && self.channels@[i as int].id@ == id@,
                None => forall|i: int| 0 <= i < self.channels.len() ==> self.channels@[i].id@ != id@,
            },
    {
        let mut i: usize = 0;
        while i < self.channels.len()
            invariant
                i <= self.channels.len(),
                forall|k: int| 0 <= k < i ==> self.channels@[k].id@ != id@,
            decreases self.channels.len() - i,
        {
            if self.channels[i].id == *id {
                return Some(i);
            }
            i = i + 1;
        }
        None
    }

    fn find_route(&self, chain_id: &Option<String>) -> (r: Option<usize>)
        ensures
            match r {
                Some(i) => i < self.routes.len() && chain_key(self.routes@[i as int].chain_id)
                    == chain_key(*chain_id),
                None => forall|i: int|
                    0 <= i < self.routes.len() ==> chain_key(self.routes@[i].chain_id) != chain_key(
                        *chain_id,
                    ),
            },
    {
        let mut i: usize = 0;
        while i < self.routes.len()
            invariant
                i <= self.routes.len(),
                forall|k: int|
                    0 <= k < i ==> chain_key(self.routes@[k].chain_id) != chain_key(*chain_id),
            decreases self.routes.len() - i,
        {
            if same_chain(&self.routes[i].chain_id, chain_id) {
                return Some(i);
            }
            i = i + 1;
        }
        None
    }

    fn find_pending(&self, reply_id: u64) -> (r: Option<usize>)
        ensures
            match r {
                Some(i) => i < self.pending.len() && self.pending@[i as int].reply_id == reply_id,
                None => forall|i: int|
                    0 <= i < self.pending.len() ==> self.pending@[i].reply_id != reply_id,
            },
    {
        let mut i: usize = 0;
        while i < self.pending.len()
            invariant
                i <= self.pending.len(),
                forall|k: int| 0 <= k < i ==> self.pending@[k].reply_id != reply_id,
            decreases self.pending.len() - i,
        {
            if self.pending[i].reply_id == reply_id {
                return Some(i);
            }
            i = i + 1;
        }
        None
    }

    fn find_owner(&self, query_id: u64) -> (r: Option<usize>)
        ensures
            match r {
                Some(i) => i < self.ownership.len() && self.ownership@[i as int].query_id == query_id,
                None => forall|i: int|
                    0 <= i < self.ownership.len() ==> self.ownership@[i].query_id != query_id,
            },
    {
        let mut i: usize = 0;
        while i < self.ownership.len()
            invariant
                i <= self.ownership.len(),
                forall|k: int| 0 <= k < i ==> self.ownership@[k].query_id != query_id,
            decreases self.ownership.len() - i,
        {
            if self.ownership[i].query_id == query_id {
                return Some(i);
            }
            i = i + 1;
        }
        None
    }

    /// The established channel with id `id`, if there is one.
    pub fn lookup_channel(&self, id: &String) -> (r: Option<ChannelInfo>)
        requires
            self.wf(),
        ensures
            r == map_get(self@.channels, id@),
    {
        match self.find_channel(id) {
            Some(i) => {
                proof {
                    lemma_table_get(self.channels@, channel_key(), channel_val(), i as int);
                }
                Some(self.channels[i].copied())
            },
            None => {
                proof {
                    lemma_table_absent(self.channels@, channel_key(), channel_val(), id@);
                }
                None
            },
        }
    }

    /// Records an established channel, replacing any record under its id.
    pub fn record_channel(&mut self, info: ChannelInfo)
        requires
            old(self).wf(),
        ensures
            final(self).wf(),
            final(self)@ == old(self)@.with_channel(info),
    {
        match self.find_channel(&info.id) {
            Some(i) => {
                proof {
                    lemma_table_update(self.channels@, channel_key(), channel_val(), i as int, info);
                }
                self.channels.set(i, info);
            },
            None => {
                proof {
                    lemma_table_absent(self.channels@, channel_key(), channel_val(), info.id@);
                    lemma_table_push(self.channels@, channel_key(), channel_val(), info);
                }
                self.channels.push(info);
            },
        }
    }

    /// Forgets the channel with id `id`.
    pub fn remove_channel(&mut self, id: &String)
        requires
            old(self).wf(),
        ensures
            final(self).wf(),
            final(self)@ == old(self)@.without_channel(id@),
    {
        match self.find_channel(id) {
            Some(i) => {
                proof {
                    lemma_table_remove(self.channels@, channel_key(), channel_val(), i as int);
                }
                self.channels.remove(i);
            },
            None => {
                proof {
                    lemma_table_absent(self.channels@, channel_key(), channel_val(), id@);
                }
                assert(self@.channels =~= self@.channels.remove(id@));
            },
        }
    }

    /// The connection that queries for `chain_id` are registered on, if a route is set.
    pub fn lookup_route(&self, chain_id: &Option<String>) -> (r: Option<String>)
        requires
            self.wf(),
        ensures
            match r {
                Some(c) => self@.routes.contains_key(chain_key(*chain_id)) && c@ == self@.routes[chain_key(*chain_id)],
                None => !self@.routes.contains_key(chain_key(*chain_id)),
            },
    {
        match self.find_route(chain_id) {
            Some(i) => {
                proof {
                    lemma_table_get(self.routes@, route_key(), route_val(), i as int);
                }
                Some(self.routes[i].connection_id.clone())
            },
            None => {
                proof {
                    lemma_table_absent(self.routes@, route_key(), route_val(), chain_key(*chain_id));
                }
                None
            },
        }
    }

    /// Routes queries for `chain_id` over `connection_id`, replacing any earlier route.
    pub fn register_route(&mut self, chain_id: Option<String>, connection_id: String)
        requires
            old(self).wf(),
        ensures
            final(self).wf(),
            final(self)@ == old(self)@.with_route(chain_key(chain_id), connection_id@),
    {
        let route = ChannelRoute { chain_id: copy_chain(&chain_id), connection_id };
        match self.find_route(&chain_id) {
            Some(i) => {
                proof {
                    lemma_table_update(self.routes@, route_key(), route_val(), i as int, route);
                }
                self.routes.set(i, route);
            },
            None => {
                proof {
                    lemma_table_absent(self.routes@, route_key(), route_val(), chain_key(chain_id));
                    lemma_table_push(self.routes@, route_key(), route_val(), route);
                }
                self.routes.push(route);
            },
        }
    }

    /// Removes the route for `chain_id`.
    pub fn unregister_route(&mut self, chain_id: &Option<String>)
        requires
            old(self).wf(),
        ensures
            final(self).wf(),
            final(self)@ == old(self)@.without_route(chain_key(*chain_id)),
    {
        match self.find_route(chain_id) {
            Some(i) => {
                proof {
                    lemma_table_remove(self.routes@, route_key(), route_val(), i as int);
                }
                self.routes.remove(i);
            },
            None => {
                proof {
                    lemma_table_absent(self.routes@, route_key(), route_val(), chain_key(*chain_id));
                }
                assert(self@.routes =~= self@.routes.remove(chain_key(*chain_id)));
            },
        }
    }

    /// Whether the reply id after the next one is free, so that a dispatch
    /// under the next one leaves a fresh id for the dispatch after it.
    pub fn can_dispatch(&self) -> (r: bool)
        requires
            self.wf(),
        ensures
            r == !self@.pending.contains_key(reply_id_after(self.next_reply_id)),
    {
        let next = if self.next_reply_id == u64::MAX {
            0
        } else {
            self.next_reply_id + 1
        };
        match self.find_pending(next) {
            Some(i) => {
                assert(self@.pending.contains_key(pending_key()(self.pending@[i as int])));
                false
            },
            None => {
                proof {
                    lemma_table_absent(self.pending@, pending_key(), pending_val(), next);
                }
                true
            },
        }
    }

    /// Records that the registration about to be dispatched was asked for by
    /// `channel_id`, and returns the reply id it is dispatched under: one that
    /// no registration is waiting on.
    pub fn record_dispatch(&mut self, channel_id: String) -> (id: u64)
        requires
            old(self).wf(),
            !old(self)@.pending.contains_key(reply_id_after(old(self).next_reply_id)),
        ensures
            final(self).wf(),
            id == old(self).next_reply_id,
            !old(self)@.pending.contains_key(id),
            final(self)@ == old(self)@.with_dispatch(channel_id@),
    {
        let id = self.next_reply_id;
        let entry = PendingCorrelation { reply_id: id, channel_id };
        proof {
            lemma_table_push(self.pending@, pending_key(), pending_val(), entry);
        }
        self.pending.push(entry);
        self.next_reply_id = if id == u64::MAX {
            0
        } else {
            id + 1
        };
        id
    }

    /// The channel waiting on the reply `reply_id`, if any.
    pub fn pending_channel(&self, reply_id: u64) -> (r: Option<String>)
        requires
            self.wf(),
        ensures
            match r {
                Some(c) => self@.pending.contains_key(reply_id) && c@ == self@.pending[reply_id],
                None => !self@.pending.contains_key(reply_id),
            },
    {
        match self.find_pending(reply_id) {
            Some(i) => {
                proof {
                    lemma_table_get(self.pending@, pending_key(), pending_val(), i as int);
                }
                Some(self.pending[i].channel_id.clone())
            },
            None => {
                proof {
                    lemma_table_absent(self.pending@, pending_key(), pending_val(), reply_id);
                }
                None
            },
        }
    }

    /// Hands query `query_id` to the channel that waited on `reply_id`, and
    /// ends that wait.
    pub fn record_query_created(&mut self, reply_id: u64, query_id: u64)
        requires
            old(self).wf(),
            old(self)@.pending.contains_key(reply_id),
        ensures
            final(self).wf(),
            final(self)@ == old(self)@.with_query_created(reply_id, query_id),
    {
        let ghost before = self@;
        let i = match self.find_pending(reply_id) {
            Some(i) => i,
            None => {
                proof {
                    lemma_table_absent(self.pending@, pending_key(), pending_val(), reply_id);
                }
                return;
            },
        };
        proof {
            lemma_table_get(self.pending@, pending_key(), pending_val(), i as int);
            lemma_table_remove(self.pending@, pending_key(), pending_val(), i as int);
        }
        let waiting = self.pending.remove(i);
        let entry = QueryOwnership { query_id, channel_id: waiting.channel_id };
        match self.find_owner(query_id) {
            Some(j) => {
                proof {
                    lemma_table_update(self.ownership@, owner_key(), owner_val(), j as int, entry);
                }
                self.ownership.set(j, entry);
            },
            None => {
                proof {
                    lemma_table_absent(self.ownership@, owner_key(), owner_val(), query_id);
                    lemma_table_push(self.ownership@, owner_key(), owner_val(), entry);
                }
                self.ownership.push(entry);
            },
        }
        assert(self@ == before.with_query_created(reply_id, query_id));
    }

    /// The channel that owns query `query_id`, if any.
    pub fn query_owner(&self, query_id: u64) -> (r: Option<String>)
        requires
            self.wf(),
        ensures
            match r {
                Some(c) => self@.ownership.contains_key(query_id) && c@ == self@.ownership[query_id],
                None => !self@.ownership.contains_key(query_id),
            },
    {
        match self.find_owner(query_id) {
            Some(i) => {
                proof {
                    lemma_table_get(self.ownership@, owner_key(), owner_val(), i as int);
                }
                Some(self.ownership[i].channel_id.clone())
            },
            None => {
                proof {
                    lemma_table_absent(self.ownership@, owner_key(), owner_val(), query_id);
                }
                None
            },
        }
    }

    /// Forgets which channel owns query `query_id`.
    pub fn remove_query_owner(&mut self, query_id: u64)
        requires
            old(self).wf(),
        ensures
            final(self).wf(),
            final(self)@ == old(self)@.without_query(query_id),
    {
        match self.find_owner(query_id) {
            Some(i) => {
                proof {
                    lemma_table_remove(self.ownership@, owner_key(), owner_val(), i as int);
                }
                self.ownership.remove(i);
            },
            None => {
                proof {
                    lemma_table_absent(self.ownership@, owner_key(), owner_val(), query_id);
                }
                assert(self@.ownership =~= self@.ownership.remove(query_id));
            },
        }
    }
}

} // verus!
