use crate::error::ServerError;
use crate::server::Server;
use crate::state::PowerState;
use std::collections::HashMap;
use vstd::prelude::*;

verus! {

broadcast use vstd::std_specs::hash::group_hash_axioms;

/// A registry view in which `id` is registered and not lent out: exclusive
/// access to it is granted.
pub open spec fn grants(m: Map<u128, Option<Server>>, id: u128) -> bool {
    m.contains_key(id) && m[id] is Some
}

/// A registry view in which `id` is registered and lent out: any further
/// lifecycle operation on it conflicts.
pub open spec fn conflicts(m: Map<u128, Option<Server>>, id: u128) -> bool {
    m.contains_key(id) && m[id] is None
}

/// Two lifecycle operations never hold the same server at once: once access
/// to `id` was granted, a second request for it conflicts until the server is
/// given back, whatever happens to other identifiers meanwhile.
pub proof fn lemma_mutual_exclusion(m: Map<u128, Option<Server>>, id: u128, other: u128, v: Option<
    Server,
>)
    requires
        grants(m, id),
        other != id,
    ensures
        conflicts(m.insert(id, None), id),
        !grants(m.insert(id, None), id),
        conflicts(m.insert(id, None).insert(other, v), id),
        conflicts(m.insert(id, None).remove(other), id),
{
}

/// The identifiers lent out to operations in flight.
pub open spec fn lent_out(m: Map<u128, Option<Server>>) -> Set<u128> {
    m.dom().filter(|k: u128| m[k] is None)
}

proof fn lemma_lent_out_bounded(m: Map<u128, Option<Server>>)
    requires
        m.dom().finite(),
    ensures
        lent_out(m).finite(),
        lent_out(m).len() <= m.dom().len(),
{
    vstd::set_lib::lemma_len_subset(lent_out(m), m.dom());
}

/// The registry of all servers of this node, keyed by identifier. A server
/// is lent out to one lifecycle operation at a time: while it is, its entry
/// holds `None`. Once closed for shutdown it lends nothing more.
pub struct ServerPool {
    servers: HashMap<u128, Option<Server>>,
    lent: usize,
    open: bool,
}

impl ServerPool {
    pub closed spec fn view(&self) -> Map<u128, Option<Server>> {
        self.servers@
    }

    /// Whether the registry still accepts new servers and operations.
    pub closed spec fn is_open(&self) -> bool {
        self.open
    }

    /// Each server at rest is well formed and filed under its own identifier,
    /// and the count of operations in flight is kept.
    pub closed spec fn wf(&self) -> bool {
        &&& forall|k: u128|
            #[trigger] self.view().contains_key(k) && self.view()[k] is Some ==> self.view()[k]->Some_0.wf()
                && self.view()[k]->Some_0.spec_id() == k
        &&& self.lent as int == lent_out(self.view()).len()
    }

    pub fn new() -> (r: ServerPool)
        ensures
            r.wf(),
            r.is_open(),
            r.view() == Map::<u128, Option<Server>>::empty(),
    {
        let r = ServerPool { servers: HashMap::new(), lent: 0, open: true };
        assert(lent_out(r.view()) =~= Set::<u128>::empty());
        r
    }

    pub fn len(&self) -> (r: usize)
        ensures
            r == self.view().len(),
    {
        self.servers.len()
    }

    pub fn contains(&self, id: u128) -> (r: bool)
        ensures
            r == self.view().contains_key(id),
    {
        self.servers.contains_key(&id)
    }

    /// Whether `id` is lent out to an operation in flight.
    pub fn is_busy(&self, id: u128) -> (r: bool)
        ensures
            r == conflicts(self.view(), id),
    {
        match self.servers.get(&id) {
            Some(slot) => slot.is_none(),
            None => false,
        }
    }

    /// How many operations are in flight.
    pub fn in_flight(&self) -> (r: usize)
        requires
            self.wf(),
        ensures
            r == lent_out(self.view()).len(),
    {
        self.lent
    }

    pub fn accepts_work(&self) -> (r: bool)
        ensures
            r == self.is_open(),
    {
        self.open
    }

    /// Closes the registry for shutdown: no new server and no new operation
    /// is admitted; those in flight run to their end and are given back.
    pub fn close(&mut self)
        requires
            old(self).wf(),
        ensures
            final(self).wf(),
            !final(self).is_open(),
            final(self).view() == old(self).view(),
    {
        self.open = false;
    }

    /// The power state of `id`, when it is registered and not lent out.
    pub fn state_of(&self, id: u128) -> (r: Option<PowerState>)
        ensures
            grants(self.view(), id) ==> r == Some(self.view()[id]->Some_0.spec_state()),
            !grants(self.view(), id) ==> r is None,
    {
        match self.servers.get(&id) {
            Some(Some(s)) => Some(s.state()),
            _ => None,
        }
    }

    /// Files `server` under its identifier. An identifier already registered,
    /// or a closed registry, is a conflict, and the registry is left as it was.
    pub fn register(&mut self, server: Server) -> (r: Result<(), ServerError>)
        requires
            old(self).wf(),
            server.wf(),
        ensures
            final(self).wf(),
            final(self).is_open() == old(self).is_open(),
            old(self).view().contains_key(server.spec_id()) || !old(self).is_open() ==> r == Err::<
                (),
                ServerError,
            >(ServerError::Conflict) && final(self).view() == old(self).view(),
            !old(self).view().contains_key(server.spec_id()) && old(self).is_open() ==> r is Ok
                && final(self).view() == old(self).view().insert(server.spec_id(), Some(server)),
    {
        let id = server.id();
        if !self.open || self.servers.contains_key(&id) {
            return Err(ServerError::Conflict);
        }
        self.servers.insert(id, Some(server));
        assert(lent_out(self.view()) =~= lent_out(old(self).view()));
        Ok(())
    }

    /// Exclusive access to `id`: the server is lent out to the caller, who
    /// gives it back with `release`. `None` when `id` is not registered; a
    /// conflict, immediately and with nothing changed, when it is lent out
    /// already or the registry is closed.
    pub fn acquire(&mut self, id: u128) -> (r: Option<Result<Server, ServerError>>)
        requires
            old(self).wf(),
        ensures
            final(self).wf(),
            final(self).is_open() == old(self).is_open(),
            !old(self).view().contains_key(id) ==> r is None && final(self).view() == old(
                self,
            ).view(),
            old(self).view().contains_key(id) && (conflicts(old(self).view(), id) || !old(
                self,
            ).is_open()) ==> r == Some(Err::<Server, ServerError>(ServerError::Conflict))
                && final(self).view() == old(self).view(),
            grants(old(self).view(), id) && old(self).is_open() ==> r == Some(
                Ok::<Server, ServerError>(old(self).view()[id]->Some_0),
            ) && final(self).view() == old(self).view().insert(id, None),
            r matches Some(Ok(s)) ==> s.wf() && s.spec_id() == id,
    {
        if !self.servers.contains_key(&id) {
            return None;
        }
        if !self.open {
            return Some(Err(ServerError::Conflict));
        }
        let total = self.servers.len();
        match self.servers.remove(&id) {
            None => None,
            Some(None) => {
                self.servers.insert(id, None);
                assert(self.view() =~= old(self).view());
                Some(Err(ServerError::Conflict))
            },
            Some(Some(s)) => {
                self.servers.insert(id, None);
                proof {
                    let m = old(self).view();
                    lemma_lent_out_bounded(m);
                    vstd::set_lib::lemma_len_subset(lent_out(m), m.dom().remove(id));
                    assert(lent_out(self.view()) =~= lent_out(m).insert(id));
                }
                self.lent = self.lent + 1;
                Some(Ok(s))
            },
        }
    }

    /// Gives back a server lent out by `acquire`, ending the exclusive
    /// access. A server that was removed meanwhile leaves the registry.
    pub fn release(&mut self, server: Server)
        requires
            old(self).wf(),
            server.wf(),
            conflicts(old(self).view(), server.spec_id()),
        ensures
            final(self).wf(),
            final(self).is_open() == old(self).is_open(),
            server.spec_state() == PowerState::Removed ==> final(self).view() == old(
                self,
            ).view().remove(server.spec_id()),
            server.spec_state() != PowerState::Removed ==> final(self).view() == old(
                self,
            ).view().insert(server.spec_id(), Some(server)),
    {
        let id = server.id();
        proof {
            lemma_lent_out_bounded(old(self).view());
            assert(lent_out(old(self).view()).contains(id));
        }
        if server.state() == PowerState::Removed {
            self.servers.remove(&id);
            assert(self.view() =~= old(self).view().remove(id));
        } else {
            self.servers.insert(id, Some(server));
        }
        assert(lent_out(self.view()) =~= lent_out(old(self).view()).remove(id));
        self.lent = self.lent - 1;
    }

    /// Takes `id` out of the registry. `None` when it is not registered; a
    /// conflict, with nothing changed, while an operation holds it.
    pub fn remove(&mut self, id: u128) -> (r: Option<Result<Server, ServerError>>)
        requires
            old(self).wf(),
        ensures
            final(self).wf(),
            final(self).is_open() == old(self).is_open(),
            !old(self).view().contains_key(id) ==> r is None && final(self).view() == old(
                self,
            ).view(),
            conflicts(old(self).view(), id) ==> r == Some(
                Err::<Server, ServerError>(ServerError::Conflict),
            ) && final(self).view() == old(self).view(),
            grants(old(self).view(), id) ==> r == Some(
                Ok::<Server, ServerError>(old(self).view()[id]->Some_0),
            ) && final(self).view() == old(self).view().remove(id),
    {
        match self.servers.remove(&id) {
            None => {
                assert(self.view() =~= old(self).view());
                None
            },
            Some(None) => {
                self.servers.insert(id, None);
                assert(self.view() =~= old(self).view());
                Some(Err(ServerError::Conflict))
            },
            Some(Some(s)) => {
                assert(self.view() =~= old(self).view().remove(id));
                assert(lent_out(self.view()) =~= lent_out(old(self).view()));
                Some(Ok(s))
            },
        }
    }
}

} // verus!
