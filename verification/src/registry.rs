//! Connection registry: admission control, client bookkeeping, broadcast.
//!
//! The registry owns one entry per connected viewer.  Admission is the
//! only gate: `add_client` refuses a new entry once the active count has
//! reached the configured maximum.  The active count is kept equal to
//! the number of entries at all times (see [`ConnectionManager::wf`] and
//! [`ConnectionManager::lemma_count_matches_entries`]).

use vstd::prelude::*;
use vstd::string::StringExecFns;

verus! {

/// Information kept about one connected viewer.
pub struct ClientInfo {
    /// Unique id of the client, generated at connection time.
    pub id: String,
    /// The client's IP address, as text.
    pub ip: String,
    /// When the client connected (RFC 3339 text).
    pub connected_at: String,
    /// When the client last showed activity (RFC 3339 text).
    pub last_active: String,
    /// How many messages the client has sent.
    pub messages_sent: usize,
}

/// Two client records carry the same data.
pub open spec fn same_info(a: ClientInfo, b: ClientInfo) -> bool {
    &&& a.id@ == b.id@
    &&& a.ip@ == b.ip@
    &&& a.connected_at@ == b.connected_at@
    &&& a.last_active@ == b.last_active@
    &&& a.messages_sent == b.messages_sent
}

impl ClientInfo {
    /// Build the record for a client that has just connected.
    pub fn new(id: String, ip: String, now: String) -> (r: ClientInfo)
        ensures
            r.id@ == id@,
            r.ip@ == ip@,
            r.connected_at@ == now@,
            r.last_active@ == now@,
            r.messages_sent == 0,
    {
        let connected = now.clone();
        ClientInfo { id, ip, connected_at: connected, last_active: now, messages_sent: 0 }
    }

    /// Refresh the last-activity stamp.
    pub fn update_activity(&mut self, now: &str)
        ensures
            final(self).id == old(self).id,
            final(self).ip == old(self).ip,
            final(self).connected_at == old(self).connected_at,
            final(self).last_active@ == now@,
            final(self).messages_sent == old(self).messages_sent,
    {
        self.last_active = String::from_str(now);
    }

    /// Count one more message sent by this client.
    pub fn increment_messages(&mut self)
        requires
            old(self).messages_sent < usize::MAX,
        ensures
            final(self).id == old(self).id,
            final(self).ip == old(self).ip,
            final(self).connected_at == old(self).connected_at,
            final(self).last_active == old(self).last_active,
            final(self).messages_sent == old(self).messages_sent + 1,
    {
        self.messages_sent = self.messages_sent + 1;
    }

    /// An owned copy of this record.
    pub fn duplicate(&self) -> (r: ClientInfo)
        ensures
            same_info(r, *self),
    {
        ClientInfo {
            id: self.id.clone(),
            ip: self.ip.clone(),
            connected_at: self.connected_at.clone(),
            last_active: self.last_active.clone(),
            messages_sent: self.messages_sent,
        }
    }
}

#[verifier::external_type_specification]
#[verifier::external_body]
#[verifier::reject_recursive_types(T)]
pub struct ExUnboundedSender<T>(futures_channel::mpsc::UnboundedSender<T>);

/// Relies on `futures_channel::mpsc::UnboundedSender::unbounded_send`:
/// queues the text for the receiver; fails only if the receiver is gone.
/// Nothing is promised of the result, since it depends on the state of
/// the far end of the channel.
#[verifier::external_body]
fn send_text(sender: &futures_channel::mpsc::UnboundedSender<String>, message: &str) -> bool {
    sender.unbounded_send(message.to_owned()).is_ok()
}

/// One registry entry: the client record and its outbound channel.
pub struct SessionEntry {
    /// The client's bookkeeping record.
    pub client_info: ClientInfo,
    /// The handle used to deliver broadcast payloads to this client.
    pub sender: futures_channel::mpsc::UnboundedSender<String>,
}

/// The connection registry.
pub struct ConnectionManager {
    clients: Vec<SessionEntry>,
    active_count: usize,
    max_connections: usize,
}

impl ConnectionManager {
    /// The registered entries.
    pub closed spec fn spec_clients(self) -> Seq<SessionEntry> {
        self.clients@
    }

    /// The tracked number of active connections.
    pub closed spec fn spec_active(self) -> nat {
        self.active_count as nat
    }

    /// The admission threshold.
    pub closed spec fn spec_max(self) -> nat {
        self.max_connections as nat
    }

    /// Well-formedness: the counter equals the number of entries, the
    /// threshold is at least one, and ids are unique.
    pub closed spec fn wf(self) -> bool {
        &&& self.active_count == self.clients@.len()
        &&& self.max_connections >= 1
        &&& forall|i: int, j: int|
            0 <= i < j < self.clients@.len()
                ==> #[trigger] self.clients@[i].client_info.id@
                != #[trigger] self.clients@[j].client_info.id@
    }

    /// Some entry carries this id.
    pub open spec fn spec_contains_id(self, id: Seq<char>) -> bool {
        exists|i: int|
            0 <= i < self.spec_clients().len() && #[trigger] self.spec_clients()[i].client_info.id@
                == id
    }

    /// How a registry looks after the entry with `id` was removed, if
    /// it was present, and untouched otherwise.
    pub open spec fn removed_one(pre: ConnectionManager, post: ConnectionManager, id: Seq<char>) -> bool {
        if pre.spec_contains_id(id) {
            &&& post.spec_max() == pre.spec_max()
            &&& exists|i: int|
                0 <= i < pre.spec_clients().len() && #[trigger] pre.spec_clients()[i].client_info.id@
                    == id && post.spec_clients() == pre.spec_clients().remove(i)
                    && post.spec_active() == pre.spec_active() - 1
        } else {
            post == pre
        }
    }

    /// How a registry looks after one client's activity stamp was
    /// refreshed and its message counter advanced, if it was present,
    /// and untouched otherwise.
    pub open spec fn updated_one(
        pre: ConnectionManager,
        post: ConnectionManager,
        id: Seq<char>,
        now: Seq<char>,
    ) -> bool {
        &&& post.spec_max() == pre.spec_max()
        &&& post.spec_active() == pre.spec_active()
        &&& post.spec_clients().len() == pre.spec_clients().len()
        &&& if pre.spec_contains_id(id) {
            exists|i: int|
                {
                    &&& 0 <= i < pre.spec_clients().len()
                    &&& #[trigger] pre.spec_clients()[i].client_info.id@ == id
                    &&& (forall|j: int|
                        0 <= j < pre.spec_clients().len() && j != i
                            ==> #[trigger] post.spec_clients()[j] == pre.spec_clients()[j])
                    &&& post.spec_clients()[i].client_info.id == pre.spec_clients()[i].client_info.id
                    &&& post.spec_clients()[i].client_info.last_active@ == now
                    &&& post.spec_clients()[i].client_info.messages_sent == if pre.spec_clients()[i].client_info.messages_sent
                        < usize::MAX {
                        pre.spec_clients()[i].client_info.messages_sent + 1
                    } else {
                        pre.spec_clients()[i].client_info.messages_sent as int
                    }
                }
        } else {
            post == pre
        }
    }

    /// In a well-formed registry the active count is exactly the number
    /// of registered entries, whatever sequence of additions and
    /// removals produced it.
    pub proof fn lemma_count_matches_entries(self)
        requires
            self.wf(),
        ensures
            self.spec_active() == self.spec_clients().len(),
    {
    }

    /// A fresh registry with the given admission threshold.
    pub fn new(max_connections: usize) -> (r: ConnectionManager)
        requires
            max_connections >= 1,
        ensures
            r.wf(),
            r.spec_clients() == Seq::<SessionEntry>::empty(),
            r.spec_active() == 0,
            r.spec_max() == max_connections,
    {
        ConnectionManager { clients: Vec::new(), active_count: 0, max_connections }
    }

    /// Index of the entry with this id, if any.
    fn find_index(&self, client_id: &str) -> (r: Option<usize>)
        ensures
            match r {
                Some(i) => i < self.spec_clients().len()
                    && self.spec_clients()[i as int].client_info.id@ == client_id@ && forall|j: int|
                    0 <= j < i ==> #[trigger] self.spec_clients()[j].client_info.id@ != client_id@,
                None => !self.spec_contains_id(client_id@),
            },
    {
        let n = self.clients.len();
        let mut i: usize = 0;
        while i < n
            invariant
                i <= n,
                n == self.clients@.len(),
                forall|j: int| 0 <= j < i ==> #[trigger] self.clients@[j].client_info.id@ != client_id@,
            decreases n - i,
        {
            if crate::strutil::str_eq(self.clients[i].client_info.id.as_str(), client_id) {
                return Some(i);
            }
            i = i + 1;
        }
        None
    }

    /// Admit a client.  Succeeds exactly when the registry is below its
    /// threshold and the id is not already registered; on success the
    /// entry is appended and the counter grows by one, otherwise
    /// nothing changes.  Rejection is the normal admission-control
    /// outcome, not an error.
    pub fn add_client(
        &mut self,
        client_info: ClientInfo,
        sender: futures_channel::mpsc::UnboundedSender<String>,
    ) -> (r: bool)
        requires
            old(self).wf(),
        ensures
            final(self).wf(),
            final(self).spec_max() == old(self).spec_max(),
            r == (old(self).spec_active() < old(self).spec_max() && !old(self).spec_contains_id(
                client_info.id@,
            )),
            r ==> final(self).spec_clients() == old(self).spec_clients().push(
                SessionEntry { client_info, sender },
            ) && final(self).spec_active() == old(self).spec_active() + 1,
            !r ==> *final(self) == *old(self),
    {
        if self.active_count >= self.max_connections {
            return false;
        }
        if self.find_index(client_info.id.as_str()).is_some() {
            return false;
        }
        self.clients.push(SessionEntry { client_info, sender });
        self.active_count = self.active_count + 1;
        true
    }

    /// Remove the entry with this id.  Returns whether one was present;
    /// a second call for the same id therefore returns `false`.
    pub fn remove_client(&mut self, client_id: &str) -> (r: bool)
        requires
            old(self).wf(),
        ensures
            final(self).wf(),
            final(self).spec_max() == old(self).spec_max(),
            r == old(self).spec_contains_id(client_id@),
            r ==> exists|i: int|
                0 <= i < old(self).spec_clients().len() && old(
                    self,
                ).spec_clients()[i].client_info.id@ == client_id@ && final(self).spec_clients()
                    == old(self).spec_clients().remove(i) && final(self).spec_active() == old(
                    self,
                ).spec_active() - 1,
            !r ==> *final(self) == *old(self),
    {
        match self.find_index(client_id) {
            Some(i) => {
                self.clients.remove(i);
                self.active_count = self.active_count - 1;
                proof {
                    old(self).spec_clients().remove_ensures(i as int);
                }
                true
            },
            None => false,
        }
    }

    /// Refresh the activity stamp of one client and count one more
    /// message from it.  Returns whether the client was found; nothing
    /// changes otherwise.  The message counter stays put once it has
    /// reached its machine limit.
    pub fn update_client(&mut self, client_id: &str, now: &str) -> (r: bool)
        requires
            old(self).wf(),
        ensures
            final(self).wf(),
            final(self).spec_max() == old(self).spec_max(),
            final(self).spec_active() == old(self).spec_active(),
            r == old(self).spec_contains_id(client_id@),
            r ==> exists|i: int|
                {
                    &&& 0 <= i < old(self).spec_clients().len()
                    &&& old(self).spec_clients()[i].client_info.id@ == client_id@
                    &&& final(self).spec_clients().len() == old(self).spec_clients().len()
                    &&& (forall|j: int|
                        0 <= j < old(self).spec_clients().len() && j != i
                            ==> #[trigger] final(self).spec_clients()[j] == old(
                            self,
                        ).spec_clients()[j])
                    &&& final(self).spec_clients()[i].client_info.id == old(
                        self,
                    ).spec_clients()[i].client_info.id
                    &&& final(self).spec_clients()[i].client_info.ip == old(
                        self,
                    ).spec_clients()[i].client_info.ip
                    &&& final(self).spec_clients()[i].client_info.connected_at == old(
                        self,
                    ).spec_clients()[i].client_info.connected_at
                    &&& final(self).spec_clients()[i].client_info.last_active@ == now@
                    &&& final(self).spec_clients()[i].client_info.messages_sent == if old(
                        self,
                    ).spec_clients()[i].client_info.messages_sent < usize::MAX {
                        old(self).spec_clients()[i].client_info.messages_sent + 1
                    } else {
                        old(self).spec_clients()[i].client_info.messages_sent as int
                    }
                    &&& final(self).spec_clients()[i].sender == old(self).spec_clients()[i].sender
                },
            !r ==> *final(self) == *old(self),
    {
        match self.find_index(client_id) {
            Some(i) => {
                let entry = &mut self.clients[i];
                entry.client_info.update_activity(now);
                if entry.client_info.messages_sent < usize::MAX {
                    entry.client_info.increment_messages();
                }
                true
            },
            None => false,
        }
    }

    /// A copy of one client's record, if it is registered.
    pub fn get_client(&self, client_id: &str) -> (r: Option<ClientInfo>)
        ensures
            r is Some == self.spec_contains_id(client_id@),
            match r {
                Some(c) => exists|i: int|
                    0 <= i < self.spec_clients().len()
                        && #[trigger] self.spec_clients()[i].client_info.id@ == client_id@
                        && same_info(c, self.spec_clients()[i].client_info),
                None => true,
            },
    {
        match self.find_index(client_id) {
            Some(i) => Some(self.clients[i].client_info.duplicate()),
            None => None,
        }
    }

    /// Copies of all registered client records, in registration order.
    pub fn get_all_clients(&self) -> (r: Vec<ClientInfo>)
        ensures
            r@.len() == self.spec_clients().len(),
            forall|i: int|
                0 <= i < r@.len() ==> same_info(
                    #[trigger] r@[i],
                    self.spec_clients()[i].client_info,
                ),
    {
        let mut out: Vec<ClientInfo> = Vec::new();
        let n = self.clients.len();
        let mut i: usize = 0;
        while i < n
            invariant
                i <= n,
                n == self.clients@.len(),
                out@.len() == i,
                forall|j: int|
                    0 <= j < i ==> same_info(#[trigger] out@[j], self.clients@[j].client_info),
            decreases n - i,
        {
            out.push(self.clients[i].client_info.duplicate());
            i = i + 1;
        }
        out
    }

    /// Change the admission threshold.
    pub fn set_max_connections(&mut self, max: usize)
        requires
            old(self).wf(),
            max >= 1,
        ensures
            final(self).wf(),
            final(self).spec_max() == max,
            final(self).spec_clients() == old(self).spec_clients(),
            final(self).spec_active() == old(self).spec_active(),
    {
        self.max_connections = max;
    }

    /// The current admission threshold.
    pub fn get_max_connections(&self) -> (r: usize)
        ensures
            r == self.spec_max(),
    {
        self.max_connections
    }

    /// Deliver a payload to every registered client's channel.  Returns
    /// the number of delivery attempts, which is exactly the number of
    /// registered clients; a failed delivery to one client never stops
    /// the others.
    pub fn broadcast(&self, message: &str) -> (r: usize)
        ensures
            r == self.spec_clients().len(),
    {
        let n = self.clients.len();
        let mut i: usize = 0;
        while i < n
            invariant
                i <= n,
                n == self.clients@.len(),
            decreases n - i,
        {
            let _delivered = send_text(&self.clients[i].sender, message);
            i = i + 1;
        }
        n
    }

    /// A point-in-time snapshot for external reporting.
    pub fn get_connections_info(&self) -> (r: ConnectionsInfo)
        ensures
            r.active_connections == self.spec_active(),
            r.max_connections == self.spec_max(),
            r.clients@.len() == self.spec_clients().len(),
            forall|i: int|
                0 <= i < r.clients@.len() ==> same_info(
                    #[trigger] r.clients@[i],
                    self.spec_clients()[i].client_info,
                ),
    {
        ConnectionsInfo {
            active_connections: self.active_count,
            max_connections: self.max_connections,
            clients: self.get_all_clients(),
        }
    }
}

/// Snapshot of the registry handed to external observers.
pub struct ConnectionsInfo {
    /// Number of currently registered clients.
    pub active_connections: usize,
    /// The admission threshold in force.
    pub max_connections: usize,
    /// The registered clients' records.
    pub clients: Vec<ClientInfo>,
}

/// Change the admission threshold on behalf of the shell: a threshold
/// below one is refused with an error message.
pub fn set_connection_limits(manager: &mut ConnectionManager, max_connections: usize) -> (r:
    Result<(), String>)
    requires
        old(manager).wf(),
    ensures
        final(manager).wf(),
        if max_connections < 1 {
            &&& r matches Err(e) && e@ == "最大接続数は1以上である必要があります"@
            &&& *final(manager) == *old(manager)
        } else {
            &&& r is Ok
            &&& final(manager).spec_max() == max_connections
            &&& final(manager).spec_clients() == old(manager).spec_clients()
            &&& final(manager).spec_active() == old(manager).spec_active()
        },
{
    if max_connections < 1 {
        Err(String::from_str("最大接続数は1以上である必要があります"))
    } else {
        manager.set_max_connections(max_connections);
        Ok(())
    }
}

/// The number of currently registered connections.
pub fn get_connections_count(manager: &ConnectionManager) -> (r: usize)
    ensures
        r == manager.spec_active(),
{
    manager.get_connections_info().active_connections
}

} // verus!
