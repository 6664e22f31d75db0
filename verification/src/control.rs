//! The clients that are logged in, and how each of them is reached.
use crate::names::NameMap;
use vstd::prelude::*;
use vstd::string::*;

verus! {

/// A client that is logged in. Times are milliseconds on a clock that never runs
/// back.
#[derive(Debug)]
pub struct ClientInfo {
    pub run_id: String,
    pub client_id: String,
    pub user: String,
    pub connected_at: u64,
    pub last_heartbeat: u64,
}

/// The clients that are logged in, by run, and a channel to each of them.
pub struct ControlManager<C> {
    msg_channels: NameMap<C>,
    clients: NameMap<ClientInfo>,
}

impl<C> ControlManager<C> {
    /// The channel to each run.
    pub closed spec fn channels(self) -> Map<Seq<char>, C> {
        self.msg_channels@
    }

    /// What is known of each run.
    pub closed spec fn clients(self) -> Map<Seq<char>, ClientInfo> {
        self.clients@
    }

    /// The runs in the order in which they became known.
    pub closed spec fn order(self) -> Seq<Seq<char>> {
        self.clients.names()
    }

    /// The runs that messages can be sent to.
    pub open spec fn reachable(self) -> Set<Seq<char>> {
        self.channels().dom()
    }

    pub fn new() -> (m: Self)
        ensures
            m.channels() == Map::<Seq<char>, C>::empty(),
            m.clients() == Map::<Seq<char>, ClientInfo>::empty(),
            m.order() == Seq::<Seq<char>>::empty(),
    {
        ControlManager { msg_channels: NameMap::new(), clients: NameMap::new() }
    }

    /// Keeps the channel to a run.
    pub fn add(&mut self, run_id: String, msg_tx: C)
        ensures
            final(self).channels() == old(self).channels().insert(run_id@, msg_tx),
            final(self).clients() == old(self).clients(),
            final(self).order() == old(self).order(),
    {
        self.msg_channels.insert(run_id, msg_tx);
    }

    /// Forgets a run.
    pub fn remove(&mut self, run_id: &str)
        ensures
            final(self).channels() == old(self).channels().remove(run_id@),
            final(self).clients() == old(self).clients().remove(run_id@),
            final(self).order() == (if old(self).clients().contains_key(run_id@) {
                old(self).order().remove(old(self).order().index_of(run_id@))
            } else {
                old(self).order()
            }),
    {
        let _ = self.msg_channels.remove(run_id);
        let _ = self.clients.remove(run_id);
    }

    /// The channel to a run.
    pub fn get_msg_tx(&self, run_id: &str) -> (tx: Option<&C>)
        ensures
            match tx {
                Some(c) => self.channels().contains_key(run_id@) && *c == self.channels()[run_id@],
                None => !self.channels().contains_key(run_id@),
            },
    {
        self.msg_channels.get(run_id)
    }

    /// Whether messages can be sent to a run.
    pub fn is_reachable(&self, run_id: &str) -> (b: bool)
        ensures
            b == self.reachable().contains(run_id@),
    {
        self.msg_channels.contains(run_id)
    }

    /// What is known of a run.
    pub fn get_client(&self, run_id: &str) -> (info: Option<&ClientInfo>)
        ensures
            match info {
                Some(i) => self.clients().contains_key(run_id@) && *i == self.clients()[run_id@],
                None => !self.clients().contains_key(run_id@),
            },
    {
        self.clients.get(run_id)
    }

    /// Keeps what is known of a client that logged in at the time `now`.
    pub fn add_client(&mut self, client_id: String, run_id: String, user: String, now: u64)
        ensures
            final(self).channels() == old(self).channels(),
            final(self).clients() == old(self).clients().insert(
                run_id@,
                (ClientInfo { run_id, client_id, user, connected_at: now, last_heartbeat: now }),
            ),
            final(self).order() == (if old(self).clients().contains_key(run_id@) {
                old(self).order()
            } else {
                old(self).order().push(run_id@)
            }),
    {
        let key: String = run_id.clone();
        self.clients.insert(
            key,
            ClientInfo { run_id, client_id, user, connected_at: now, last_heartbeat: now },
        );
    }

    /// Keeps the time at which a client was last heard of.
    pub fn update_heartbeat(&mut self, run_id: &str, now: u64)
        ensures
            final(self).channels() == old(self).channels(),
            final(self).clients() == (if old(self).clients().contains_key(run_id@) {
                old(self).clients().insert(
                    run_id@,
                    (ClientInfo { last_heartbeat: now, ..old(self).clients()[run_id@] }),
                )
            } else {
                old(self).clients()
            }),
            final(self).order() == old(self).order(),
    {
        let known: Option<ClientInfo> = match self.clients.get(run_id) {
            Some(info) => Some(
                ClientInfo {
                    run_id: info.run_id.clone(),
                    client_id: info.client_id.clone(),
                    user: info.user.clone(),
                    connected_at: info.connected_at,
                    last_heartbeat: now,
                },
            ),
            None => None,
        };
        if let Some(info) = known {
            self.clients.insert(run_id.to_string(), info);
        }
    }

    /// Every client, in the order in which they became known.
    pub fn get_clients(&self) -> (list: Vec<&ClientInfo>)
        ensures
            list@ == self.order().map_values(|n: Seq<char>| &self.clients()[n]),
            self.order().no_duplicates(),
            self.order().to_set() == self.clients().dom(),
    {
        let mut list: Vec<&ClientInfo> = Vec::new();
        let mut i: usize = 0;
        proof {
            self.clients.lemma_names();
        }
        let ghost infos = self.order().map_values(|n: Seq<char>| &self.clients()[n]);
        let n: usize = self.clients.len();
        while i < n
            invariant
                i <= n,
                n == self.clients.names().len(),
                infos == self.clients.names().map_values(|n: Seq<char>| &self.clients@[n]),
                list@ == infos.take(i as int),
            decreases n - i,
        {
            let info: &ClientInfo = self.clients.value_at(i);
            assert(infos[i as int] == info);
            list.push(info);
            i = i + 1;
        }
        list
    }
}

} // verus!
