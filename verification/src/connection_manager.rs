//! The signalling server's registry of live websocket connections: for each
//! user, the set of that user's open connections, each with the channel that
//! feeds it.
use vstd::prelude::*;
use dashmap::DashMap;
use crate::errors::ConnectionError;
use crate::models::{Id, ServerEvent};

verus! {

broadcast use vstd::seq_lib::group_seq_properties;

#[verifier::external_type_specification]
#[verifier::external_body]
#[verifier::reject_recursive_types(K)]
#[verifier::reject_recursive_types(V)]
#[verifier::reject_recursive_types(S)]
pub struct ExDashMap<K, V, S>(dashmap::DashMap<K, V, S>);

#[verifier::external_type_specification]
#[verifier::external_body]
#[verifier::reject_recursive_types(T)]
pub struct ExSender<T>(tokio::sync::mpsc::Sender<T>);

/// The channel that feeds one websocket connection.
pub type Connection = tokio::sync::mpsc::Sender<ServerEvent>;

/// Users to their connections, each connection by its id.
pub type ConnectionTable = DashMap<Id, DashMap<Id, Connection>>;

/// Registrations: for each user, each connection id with its channel.
pub type Registry = Map<Id, Map<Id, Connection>>;

/// For each user in the table, that user's connections: each id with the
/// channel stored under it.
pub uninterp spec fn connection_senders(table: ConnectionTable) -> Registry;

/// The connections of `user` in `t`, empty for an unknown user.
pub open spec fn conns_of(t: Registry, user: Id) -> Map<Id, Connection> {
    if t.contains_key(user) {
        t[user]
    } else {
        Map::empty()
    }
}

/// `t` after registering connection `conn` of `user`, fed by `sender` (an
/// earlier connection under the same id is replaced).
pub open spec fn spec_attach(t: Registry, user: Id, conn: Id, sender: Connection) -> Registry {
    t.insert(user, conns_of(t, user).insert(conn, sender))
}

/// `t` after dropping connection `conn` of `user`, and whether that dropped
/// the user's last connection (the user's entry is then removed).
pub open spec fn spec_detach(t: Registry, user: Id, conn: Id) -> (Registry, bool) {
    if !t.contains_key(user) {
        (t, false)
    } else if t[user].remove(conn).dom() == Set::<Id>::empty() {
        (t.remove(user), true)
    } else {
        (t.insert(user, t[user].remove(conn)), false)
    }
}

/// The connection ids of a list of delivery targets, in order.
pub open spec fn target_ids(targets: Seq<(Id, Connection)>) -> Seq<Id> {
    targets.map_values(|t: (Id, Connection)| t.0)
}

/// Whether `targets` holds each of the connections `conns` exactly once,
/// each id with the channel registered under it.
pub open spec fn delivers_to(targets: Seq<(Id, Connection)>, conns: Map<Id, Connection>) -> bool {
    &&& target_ids(targets).no_duplicates()
    &&& target_ids(targets).to_set() == conns.dom()
    &&& forall|i: int| 0 <= i < targets.len() ==> #[trigger] targets[i].1 == conns[targets[i].0]
}

/// The registry without any user.
pub open spec fn empty_registry() -> Registry {
    Map::empty()
}

/// A user is online while at least one of its connections is registered.
pub open spec fn spec_is_online(t: Registry, user: Id) -> bool {
    t.contains_key(user) && t[user].dom() != Set::<Id>::empty()
}

/// No user is kept with an empty set of connections.
pub open spec fn table_wf(t: Registry) -> bool {
    forall|u: Id| #[trigger] t.contains_key(u) ==> t[u].dom() != Set::<Id>::empty()
}

/// `DashMap::new` for the table: an empty registry.
#[verifier::external_body]
fn table_new() -> (created: ConnectionTable)
    ensures
        connection_senders(created) == empty_registry(),
{
    DashMap::new()
}

/// `entry(user).or_default().insert(conn, sender)`: the user's entry is created
/// empty when missing, then `sender` is stored under `conn`, replacing a
/// connection stored under the same id.
#[verifier::external_body]
fn table_attach(table: &mut ConnectionTable, user: Id, conn: Id, sender: Connection)
    ensures
        connection_senders(*final(table)) == spec_attach(
            connection_senders(*old(table)),
            user,
            conn,
            sender,
        ),
{
    table.entry(user).or_default().insert(conn, sender);
}

/// `get(user)`, then `remove(conn)` and `is_empty()` on the user's entry:
/// `None` when the user has no entry (nothing changes), else whether the
/// entry is empty after dropping `conn`.
#[verifier::external_body]
fn table_detach(table: &mut ConnectionTable, user: Id, conn: Id) -> (now_empty: Option<bool>)
    ensures
        !connection_senders(*old(table)).contains_key(user) ==> now_empty is None
            && connection_senders(*final(table)) == connection_senders(*old(table)),
        connection_senders(*old(table)).contains_key(user) ==> now_empty == Some(
            connection_senders(*old(table))[user].remove(conn).dom() == Set::<Id>::empty(),
        ) && connection_senders(*final(table)) == connection_senders(*old(table)).insert(
            user,
            connection_senders(*old(table))[user].remove(conn),
        ),
{
    match table.get(&user) {
        Some(conns) => {
            conns.remove(&conn);
            Some(conns.is_empty())
        },
        None => None,
    }
}

/// `DashMap::remove(user)`: drops the user's entry.
#[verifier::external_body]
fn table_remove_user(table: &mut ConnectionTable, user: Id)
    ensures
        connection_senders(*final(table)) == connection_senders(*old(table)).remove(user),
{
    table.remove(&user);
}

/// `get(user)` then `is_empty()` on the user's entry; `None` when the user
/// has no entry.
#[verifier::external_body]
fn table_user_is_empty(table: &ConnectionTable, user: Id) -> (empty: Option<bool>)
    ensures
        empty == (if connection_senders(*table).contains_key(user) {
            Some(connection_senders(*table)[user].dom() == Set::<Id>::empty())
        } else {
            None
        }),
{
    match table.get(&user) {
        Some(conns) => Some(conns.is_empty()),
        None => None,
    }
}

/// `get(user)` then the keys of the user's entry, each once.
#[verifier::external_body]
fn table_conn_ids(table: &ConnectionTable, user: Id) -> (ids: Option<Vec<Id>>)
    ensures
        ids is Some <==> connection_senders(*table).contains_key(user),
        ids matches Some(v) ==> v@.no_duplicates() && v@.to_set() == connection_senders(
            *table,
        )[user].dom(),
{
    match table.get(&user) {
        Some(conns) => Some(conns.iter().map(|entry| *entry.key()).collect()),
        None => None,
    }
}

/// `get(user)`, `get(conn)` on the user's entry, then `Sender::clone` of the
/// stored channel: a handle to the channel registered under `conn`.
#[verifier::external_body]
fn table_sender(table: &ConnectionTable, user: Id, conn: Id) -> (sender: Option<Connection>)
    ensures
        sender == (if connection_senders(*table).contains_key(user) && connection_senders(
            *table,
        )[user].contains_key(conn) {
            Some(connection_senders(*table)[user][conn])
        } else {
            None
        }),
{
    match table.get(&user) {
        Some(conns) => match conns.get(&conn) {
            Some(entry) => Some(entry.value().clone()),
            None => None,
        },
        None => None,
    }
}

/// Every live websocket connection, grouped by user.
pub struct ConnectionManager {
    connections: ConnectionTable,
}

impl View for ConnectionManager {
    type V = Registry;

    closed spec fn view(&self) -> Registry {
        connection_senders(self.connections)
    }
}

impl ConnectionManager {
    /// The registry keeps no user without a connection.
    pub open spec fn wf(&self) -> bool {
        table_wf(self@)
    }

    /// An empty registry.
    pub fn new() -> (manager: Self)
        ensures
            manager@ == empty_registry(),
            manager.wf(),
    {
        ConnectionManager { connections: table_new() }
    }

    /// Whether `user` has at least one registered connection.
    pub fn is_online(&self, user_id: Id) -> (online: bool)
        ensures
            online == spec_is_online(self@, user_id),
    {
        match table_user_is_empty(&self.connections, user_id) {
            Some(empty) => !empty,
            None => false,
        }
    }

    /// Registers connection `conn_id` of `user_id`, fed by `sender`.
    pub fn connect(&mut self, user_id: Id, sender: Connection, conn_id: Id)
        requires
            old(self).wf(),
        ensures
            final(self)@ == spec_attach(old(self)@, user_id, conn_id, sender),
            final(self).wf(),
    {
        table_attach(&mut self.connections, user_id, conn_id, sender);
        proof {
            assert(self@[user_id].dom().contains(conn_id));
        }
    }

    /// Drops connection `conn_id` of `user_id`; returns true if this was the
    /// user's last connection (the user just went offline).
    pub fn disconnect(&mut self, user_id: Id, conn_id: Id) -> (went_offline: bool)
        requires
            old(self).wf(),
        ensures
            (final(self)@, went_offline) == spec_detach(old(self)@, user_id, conn_id),
            final(self).wf(),
    {
        match table_detach(&mut self.connections, user_id, conn_id) {
            Some(true) => {
                table_remove_user(&mut self.connections, user_id);
                proof {
                    assert(self@ == old(self)@.remove(user_id));
                }
                true
            },
            Some(false) => false,
            None => false,
        }
    }

    /// The connections that a message to `user_id` goes to: each registered
    /// connection of the user once, with its id, or `NotConnected` for a
    /// user without an entry.
    pub fn send_targets(&self, user_id: Id) -> (targets: Result<Vec<(Id, Connection)>, ConnectionError>)
        ensures
            targets is Err <==> !self@.contains_key(user_id),
            targets matches Err(e) ==> e == ConnectionError::NotConnected,
            targets matches Ok(v) ==> delivers_to(v@, self@[user_id]),
    {
        let ids = match table_conn_ids(&self.connections, user_id) {
            Some(ids) => ids,
            None => return Err(ConnectionError::NotConnected),
        };
        let mut out: Vec<(Id, Connection)> = Vec::new();
        let mut i: usize = 0;
        while i < ids.len()
            invariant
                0 <= i <= ids.len(),
                target_ids(out@) == ids@.take(i as int),
                forall|j: int| 0 <= j < i ==> #[trigger] out@[j].1 == self@[user_id][out@[j].0],
                self@.contains_key(user_id),
                ids@.no_duplicates(),
                ids@.to_set() == self@[user_id].dom(),
            decreases ids.len() - i,
        {
            assert(ids@.to_set().contains(ids@[i as int]));
            match table_sender(&self.connections, user_id, ids[i]) {
                Some(s) => out.push((ids[i], s)),
                None => {
                    assert(false);
                },
            }
            assert(ids@.take(i + 1) =~= ids@.take(i as int).push(ids@[i as int]));
            i = i + 1;
        }
        assert(ids@.take(ids.len() as int) =~= ids@);
        Ok(out)
    }

    /// For each of `user_ids` in turn, the connections a broadcast reaches.
    pub fn broadcast_targets(&self, user_ids: &Vec<Id>) -> (targets: Vec<
        Result<Vec<(Id, Connection)>, ConnectionError>,
    >)
        ensures
            targets.len() == user_ids.len(),
            forall|i: int|
                0 <= i < user_ids.len() ==> (#[trigger] targets[i] is Err <==> !self@.contains_key(
                    user_ids[i],
                )),
            forall|i: int|
                0 <= i < user_ids.len() ==> (#[trigger] targets[i] matches Ok(v) ==> delivers_to(
                    v@,
                    self@[user_ids[i]],
                )),
    {
        let mut out: Vec<Result<Vec<(Id, Connection)>, ConnectionError>> = Vec::new();
        let mut i: usize = 0;
        while i < user_ids.len()
            invariant
                0 <= i <= user_ids.len(),
                out.len() == i,
                forall|j: int|
                    0 <= j < i ==> (#[trigger] out[j] is Err <==> !self@.contains_key(user_ids[j])),
                forall|j: int|
                    0 <= j < i ==> (#[trigger] out[j] matches Ok(v) ==> delivers_to(
                        v@,
                        self@[user_ids[j]],
                    )),
            decreases user_ids.len() - i,
        {
            let t = self.send_targets(user_ids[i]);
            out.push(t);
            i = i + 1;
        }
        out
    }
}

/// Registering a connection makes its user online, reachable through the
/// channel just registered.
pub proof fn law_connect_makes_online(t: Registry, user: Id, conn: Id, sender: Connection)
    ensures
        spec_is_online(spec_attach(t, user, conn, sender), user),
        spec_attach(t, user, conn, sender)[user][conn] == sender,
{
    assert(spec_attach(t, user, conn, sender)[user].dom().contains(conn));
}

/// Registering and dropping connections keeps the registry free of users
/// without a connection.
pub proof fn law_registry_stays_wf(t: Registry, user: Id, conn: Id, sender: Connection)
    requires
        table_wf(t),
    ensures
        table_wf(spec_attach(t, user, conn, sender)),
        table_wf(spec_detach(t, user, conn).0),
{
    assert(spec_attach(t, user, conn, sender)[user].dom().contains(conn));
}

/// On a well-formed registry, dropping a connection reports "went offline"
/// exactly when the user was online before and is not online after.
pub proof fn law_disconnect_reports_going_offline(t: Registry, user: Id, conn: Id)
    requires
        table_wf(t),
    ensures
        spec_detach(t, user, conn).1 <==> (spec_is_online(t, user) && !spec_is_online(
            spec_detach(t, user, conn).0,
            user,
        )),
{
}

/// Dropping a connection leaves every other user's connections as they were.
pub proof fn law_disconnect_other_users_unchanged(t: Registry, user: Id, conn: Id, other: Id)
    requires
        other != user,
    ensures
        conns_of(spec_detach(t, user, conn).0, other) == conns_of(t, other),
        spec_is_online(spec_detach(t, user, conn).0, other) == spec_is_online(t, other),
{
}

/// Dropping a connection that was just registered under a fresh id restores
/// the registry as it was.
pub proof fn law_disconnect_undoes_connect(t: Registry, user: Id, conn: Id, sender: Connection)
    requires
        table_wf(t),
        !conns_of(t, user).contains_key(conn),
    ensures
        spec_detach(spec_attach(t, user, conn, sender), user, conn).0 == t,
        spec_detach(spec_attach(t, user, conn, sender), user, conn).1 == !t.contains_key(user),
{
    let a = spec_attach(t, user, conn, sender);
    assert(a[user].remove(conn) =~= conns_of(t, user));
    if t.contains_key(user) {
        assert(a.insert(user, a[user].remove(conn)) =~= t);
    } else {
        assert(a[user].remove(conn).dom() =~= Set::<Id>::empty());
        assert(a.remove(user) =~= t);
    }
}

} // verus!
