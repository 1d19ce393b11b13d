//! The registry of the devices whose heartbeat stream is open: at most one
//! stream per device id.
use crate::json::string_eq_str;
use vstd::prelude::*;

verus! {

/// Why the registry refused an operation.
#[derive(Debug, Clone, Copy, PartialEq, Eq, Structural)]
pub enum ManagerError {
    /// A stream is already registered for the device.
    AlreadyConnected,
    /// No stream is registered for the device.
    NotConnected,
}

/// The streams of the connected devices, keyed by device id.
pub struct Manager<S> {
    connected_clients: Vec<(String, S)>,
}

/// Whether no device id occurs twice in the entries.
pub open spec fn unique_ids<S>(entries: Seq<(String, S)>) -> bool {
    forall|i: int, j: int|
        0 <= i < j < entries.len() ==> #[trigger] entries[i].0@ != #[trigger] entries[j].0@
}

/// The map from device id to stream that the entries describe.
pub open spec fn clients_map<S>(entries: Seq<(String, S)>) -> Map<Seq<char>, S>
    decreases entries.len(),
{
    if entries.len() == 0 {
        Map::empty()
    } else {
        clients_map(entries.drop_last()).insert(entries.last().0@, entries.last().1)
    }
}

/// A device id is in the map exactly where some entry holds it.
pub proof fn lemma_clients_map_dom<S>(entries: Seq<(String, S)>, id: Seq<char>)
    ensures
        clients_map(entries).dom().contains(id) <==> exists|i: int|
            0 <= i < entries.len() && #[trigger] entries[i].0@ == id,
    decreases entries.len(),
{
    if entries.len() > 0 {
        let init = entries.drop_last();
        lemma_clients_map_dom(init, id);
        if clients_map(entries).dom().contains(id) {
            if entries.last().0@ != id {
                let i = choose|i: int| 0 <= i < init.len() && #[trigger] init[i].0@ == id;
                assert(entries[i].0@ == id);
            } else {
                assert(entries[entries.len() - 1].0@ == id);
            }
        }
        if exists|i: int| 0 <= i < entries.len() && #[trigger] entries[i].0@ == id {
            let i = choose|i: int| 0 <= i < entries.len() && #[trigger] entries[i].0@ == id;
            if i < entries.len() - 1 {
                assert(init[i].0@ == id);
            }
        }
    }
}

/// With unique ids, the map gives each entry's stream for its id.
pub proof fn lemma_clients_map_value<S>(entries: Seq<(String, S)>, i: int)
    requires
        unique_ids(entries),
        0 <= i < entries.len(),
    ensures
        clients_map(entries).dom().contains(entries[i].0@),
        clients_map(entries)[entries[i].0@] == entries[i].1,
    decreases entries.len(),
{
    let init = entries.drop_last();
    if i < entries.len() - 1 {
        assert(unique_ids(init));
        lemma_clients_map_value(init, i);
        assert(init[i] == entries[i]);
        assert(entries.last().0@ != entries[i].0@) by {
            assert(entries[i].0@ != entries[entries.len() - 1].0@);
        }
    }
}

/// Removing the entry of an id, with unique ids, removes the id from the map.
pub proof fn lemma_clients_map_remove<S>(entries: Seq<(String, S)>, i: int)
    requires
        unique_ids(entries),
        0 <= i < entries.len(),
    ensures
        unique_ids(entries.remove(i)),
        clients_map(entries.remove(i)) =~= clients_map(entries).remove(entries[i].0@),
    decreases entries.len(),
{
    let k = entries[i].0@;
    let init = entries.drop_last();
    let rest = entries.remove(i);
    assert forall|a: int, b: int| 0 <= a < b < rest.len() implies #[trigger] rest[a].0@
        != #[trigger] rest[b].0@ by {
        let a2 = if a < i { a } else { a + 1 };
        let b2 = if b < i { b } else { b + 1 };
        assert(rest[a] == entries[a2]);
        assert(rest[b] == entries[b2]);
    }
    if i == entries.len() - 1 {
        assert(rest =~= init);
        assert(!clients_map(init).dom().contains(k)) by {
            lemma_clients_map_dom(init, k);
            if exists|j: int| 0 <= j < init.len() && #[trigger] init[j].0@ == k {
                let j = choose|j: int| 0 <= j < init.len() && #[trigger] init[j].0@ == k;
                assert(entries[j].0@ == entries[i].0@);
            }
        }
    } else {
        assert(unique_ids(init));
        lemma_clients_map_remove(init, i);
        assert(rest.drop_last() =~= init.remove(i));
        assert(rest.last() == entries.last());
        assert(entries.last().0@ != k) by {
            assert(entries[i].0@ != entries[entries.len() - 1].0@);
        }
    }
}

impl<S> Manager<S> {
    /// The streams by device id.
    pub closed spec fn clients(&self) -> Map<Seq<char>, S> {
        clients_map(self.connected_clients@)
    }

    /// No device id is registered twice.
    #[verifier::type_invariant]
    closed spec fn ids_are_unique(&self) -> bool {
        unique_ids(self.connected_clients@)
    }

    /// A registry with no stream.
    pub fn new() -> (r: Self)
        ensures
            r.clients() == Map::<Seq<char>, S>::empty(),
    {
        Manager { connected_clients: Vec::new() }
    }

    /// The position of the entry of a device id.
    fn position(&self, device_id: &str) -> (r: Option<usize>)
        ensures
            match r {
                Some(i) => i < self.connected_clients@.len() && self.connected_clients@[i as int].0@
                    == device_id@,
                None => !self.clients().dom().contains(device_id@),
            },
    {
        let mut i: usize = 0;
        while i < self.connected_clients.len()
            invariant
                i <= self.connected_clients@.len(),
                forall|j: int| 0 <= j < i ==> #[trigger] self.connected_clients@[j].0@ != device_id@,
            decreases self.connected_clients.len() - i,
        {
            if string_eq_str(&self.connected_clients[i].0, device_id) {
                return Some(i);
            }
            i = i + 1;
        }
        proof {
            lemma_clients_map_dom(self.connected_clients@, device_id@);
        }
        None
    }

    /// Whether a stream is registered for the device.
    pub fn is_client_connected(&self, device_id: &str) -> (r: bool)
        ensures
            r == self.clients().dom().contains(device_id@),
    {
        proof {
            use_type_invariant(self);
        }
        match self.position(device_id) {
            Some(i) => {
                proof {
                    lemma_clients_map_value(self.connected_clients@, i as int);
                }
                true
            },
            None => false,
        }
    }

    /// Registers the stream of a device. A device that already has one is
    /// refused and the registry is left as it was.
    pub fn on_client_connected(&mut self, device_id: String, stream: S) -> (r: Result<
        (),
        ManagerError,
    >)
        ensures
            old(self).clients().dom().contains(device_id@) ==> r == Err::<(), ManagerError>(
                ManagerError::AlreadyConnected,
            ) && final(self).clients() == old(self).clients(),
            !old(self).clients().dom().contains(device_id@) ==> r is Ok && final(self).clients()
                == old(self).clients().insert(device_id@, stream),
    {
        proof {
            use_type_invariant(&*self);
        }
        if self.is_client_connected(device_id.as_str()) {
            return Err(ManagerError::AlreadyConnected);
        }
        let mut entries: Vec<(String, S)> = Vec::new();
        std::mem::swap(&mut entries, &mut self.connected_clients);
        let ghost before = entries@;
        proof {
            lemma_clients_map_dom(before, device_id@);
        }
        entries.push((device_id, stream));
        assert(entries@.drop_last() =~= before);
        assert(unique_ids(entries@)) by {
            assert forall|i: int, j: int| 0 <= i < j < entries@.len() implies #[trigger] entries@[i].0@
                != #[trigger] entries@[j].0@ by {
                if j == entries@.len() - 1 {
                    assert(before[i] == entries@[i]);
                } else {
                    assert(before[i] == entries@[i] && before[j] == entries@[j]);
                }
            }
        }
        self.connected_clients = entries;
        Ok(())
    }

    /// Drops the stream of a device, if one is registered.
    pub fn on_client_disconnected(&mut self, device_id: &str)
        ensures
            final(self).clients() == old(self).clients().remove(device_id@),
    {
        proof {
            use_type_invariant(&*self);
        }
        match self.position(device_id) {
            None => {
                assert(self.clients().remove(device_id@) =~= self.clients());
            },
            Some(i) => {
                let mut entries: Vec<(String, S)> = Vec::new();
                std::mem::swap(&mut entries, &mut self.connected_clients);
                proof {
                    lemma_clients_map_remove(entries@, i as int);
                }
                let _ = entries.remove(i);
                self.connected_clients = entries;
            },
        }
    }

    /// The stream of a device, to force a heartbeat on it; an error where
    /// the device has none.
    pub fn force_heartbeat(&self, device_id: &str) -> (r: Result<&S, ManagerError>)
        ensures
            self.clients().dom().contains(device_id@) ==> (r matches Ok(s) && *s == self.clients()[device_id@]),
            !self.clients().dom().contains(device_id@) ==> r == Err::<&S, ManagerError>(
                ManagerError::NotConnected,
            ),
    {
        proof {
            use_type_invariant(self);
        }
        match self.position(device_id) {
            Some(i) => {
                proof {
                    lemma_clients_map_value(self.connected_clients@, i as int);
                }
                Ok(&self.connected_clients[i].1)
            },
            None => Err(ManagerError::NotConnected),
        }
    }
}

/// Disconnecting a device that was just connected leaves the registry as it
/// was before the connection.
pub proof fn law_disconnect_undoes_connect<S>(
    before: Map<Seq<char>, S>,
    device_id: Seq<char>,
    stream: S,
)
    requires
        !before.dom().contains(device_id),
    ensures
        before.insert(device_id, stream).remove(device_id) == before,
{
    assert(before.insert(device_id, stream).remove(device_id) =~= before);
}

/// Connecting a device leaves the streams of the other devices as they
/// were, and so does disconnecting one.
pub proof fn law_other_devices_unaffected<S>(
    before: Map<Seq<char>, S>,
    device_id: Seq<char>,
    other: Seq<char>,
    stream: S,
)
    requires
        other != device_id,
    ensures
        before.insert(device_id, stream).dom().contains(other) == before.dom().contains(other),
        before.dom().contains(other) ==> before.insert(device_id, stream)[other] == before[other],
        before.remove(device_id).dom().contains(other) == before.dom().contains(other),
        before.dom().contains(other) ==> before.remove(device_id)[other] == before[other],
{
}

} // verus!
