//! Groups of TCP proxies that share one listening port: the first member binds the
//! port, and connections go to the members in turn.
use crate::names::NameMap;
use crate::text::{decimal, push_decimal, same, texts};
use std::collections::HashMap;
use vstd::prelude::*;
use vstd::string::*;

verus! {

broadcast use vstd::std_specs::hash::group_hash_axioms;

/// Why a proxy cannot join a group.
#[derive(Debug)]
pub enum GroupError {
    /// The group has another port.
    BoundElsewhere { group: String, bound: u16, port: u16 },
    /// The port belongs to another group.
    PortTaken { port: u16, group: String },
    /// The key is not that of the group.
    KeyMismatch { group: String },
}

impl GroupError {
    /// The text that describes an error.
    pub open spec fn spec_message(self) -> Seq<char> {
        match self {
            GroupError::BoundElsewhere { group, bound, port } => "group ["@ + group@
                + "] is bound to port "@ + decimal(bound as nat) + ", cannot join port "@ + decimal(
                port as nat,
            ),
            GroupError::PortTaken { port, group } => "port "@ + decimal(port as nat)
                + " is already bound by group ["@ + group@ + "]"@,
            GroupError::KeyMismatch { group } => "group ["@ + group@
                + "] auth failed: group_key mismatch"@,
        }
    }

    /// The text that describes the error.
    pub fn message(&self) -> (text: String)
        ensures
            text@ == self.spec_message(),
    {
        match self {
            GroupError::BoundElsewhere { group, bound, port } => {
                let mut out: String = "group [".to_string();
                out.append(group.as_str());
                out.append("] is bound to port ");
                push_decimal(&mut out, *bound as u64);
                out.append(", cannot join port ");
                push_decimal(&mut out, *port as u64);
                out
            },
            GroupError::PortTaken { port, group } => {
                let mut out: String = "port ".to_string();
                push_decimal(&mut out, *port as u64);
                out.append(" is already bound by group [");
                out.append(group.as_str());
                out.append("]");
                out
            },
            GroupError::KeyMismatch { group } => {
                let mut out: String = "group [".to_string();
                out.append(group.as_str());
                out.append("] auth failed: group_key mismatch");
                out
            },
        }
    }
}

/// The name under which the shared listener of a port is kept.
pub open spec fn spec_listener_key(port: u16) -> Seq<char> {
    "__group_port_"@ + decimal(port as nat) + "__"@
}

/// The name under which the shared listener of a port is kept.
pub fn group_listener_key(port: u16) -> (key: String)
    ensures
        key@ == spec_listener_key(port),
{
    let mut key: String = "__group_port_".to_string();
    push_decimal(&mut key, port as u64);
    key.append("__");
    key
}

struct GroupState {
    group: String,
    group_key: String,
    members: Vec<String>,
    rr_index: usize,
}

/// One group: its name and key, its members in the order in which they joined, and
/// how many connections were given out, which says whose turn it is.
pub struct GroupView {
    pub group: Seq<char>,
    pub key: Seq<char>,
    pub members: Seq<Seq<char>>,
    pub turn: usize,
}

impl View for GroupState {
    type V = GroupView;

    closed spec fn view(&self) -> GroupView {
        GroupView {
            group: self.group@,
            key: self.group_key@,
            members: texts(self.members@),
            turn: self.rr_index,
        }
    }
}

/// The groups, each found by its port.
pub struct GroupRegistry {
    groups: HashMap<u16, GroupState>,
    group_ports: NameMap<u16>,
}

impl View for GroupRegistry {
    type V = Map<u16, GroupView>;

    closed spec fn view(&self) -> Map<u16, GroupView> {
        Map::new(|p: u16| self.groups@.contains_key(p), |p: u16| self.groups@[p]@)
    }
}

/// `bound` is the port of the group of this name.
pub open spec fn has_port(m: Map<u16, GroupView>, group: Seq<char>, bound: u16) -> bool {
    m.contains_key(bound) && m[bound].group == group
}

/// The members without those of this name.
pub open spec fn without(members: Seq<Seq<char>>, name: Seq<char>) -> Seq<Seq<char>>
    decreases members.len(),
{
    if members.len() == 0 {
        seq![]
    } else if members.last() == name {
        without(members.drop_last(), name)
    } else {
        without(members.drop_last(), name).push(members.last())
    }
}

/// The number after `n`, which after the greatest is 0.
pub open spec fn next_turn(n: usize) -> usize {
    if n == usize::MAX {
        0
    } else {
        (n + 1) as usize
    }
}

/// The member whose turn it is.
pub open spec fn member_in_turn(g: GroupView) -> Seq<char> {
    g.members[(g.turn as int) % (g.members.len() as int)]
}

/// What joining a group does: `r` is the answer and `after` the groups then.
pub open spec fn join_outcome(
    before: Map<u16, GroupView>,
    group: Seq<char>,
    group_key: Seq<char>,
    port: u16,
    proxy_name: Seq<char>,
    r: Result<bool, GroupError>,
    after: Map<u16, GroupView>,
) -> bool {
    match r {
        Ok(first) => {
            &&& only_on(before, group, port)
            &&& first == !before.contains_key(port)
            &&& first ==> after == before.insert(
                port,
                GroupView { group, key: group_key, members: seq![proxy_name], turn: 0 },
            )
            &&& !first ==> before[port].group == group && before[port].key == group_key && after
                == before.insert(
                port,
                GroupView { members: before[port].members.push(proxy_name), ..before[port] },
            )
        },
        Err(GroupError::BoundElsewhere { group: g, bound, port: p }) => {
            &&& has_port(before, group, bound)
            &&& bound != port
            &&& g@ == group
            &&& p == port
            &&& after == before
        },
        Err(GroupError::PortTaken { port: p, group: g }) => {
            &&& only_on(before, group, port)
            &&& before.contains_key(port)
            &&& before[port].group != group
            &&& g@ == before[port].group
            &&& p == port
            &&& after == before
        },
        Err(GroupError::KeyMismatch { group: g }) => {
            &&& has_port(before, group, port)
            &&& before[port].key != group_key
            &&& g@ == group
            &&& after == before
        },
    }
}

/// The group of this name has no port but `port`.
pub open spec fn only_on(m: Map<u16, GroupView>, group: Seq<char>, port: u16) -> bool {
    forall|b: u16| #[trigger] has_port(m, group, b) ==> b == port
}

impl Default for GroupRegistry {
    fn default() -> (r: Self)
        ensures
            r.wf(),
            r@ == Map::<u16, GroupView>::empty(),
    {
        let r = GroupRegistry { groups: HashMap::new(), group_ports: NameMap::new() };
        assert(r@ =~= Map::<u16, GroupView>::empty());
        r
    }
}

impl GroupRegistry {
    /// Every group has a member, and a name that no other group has.
    pub closed spec fn wf(self) -> bool {
        &&& forall|p: u16|
            #![trigger self.groups@[p]]
            self.groups@.contains_key(p) ==> self.groups@[p].members@.len() > 0
                && self.group_ports@.contains_key(self.groups@[p].group@)
                && self.group_ports@[self.groups@[p].group@] == p
        &&& forall|n: Seq<char>|
            #![trigger self.group_ports@[n]]
            self.group_ports@.contains_key(n) ==> self.groups@.contains_key(self.group_ports@[n])
                && self.groups@[self.group_ports@[n]].group@ == n
    }

    /// What `wf` means for the groups that the registry shows.
    pub proof fn lemma_wf(self)
        requires
            self.wf(),
        ensures
            forall|p: u16| #[trigger] self@.contains_key(p) ==> self@[p].members.len() > 0,
            forall|p: u16, q: u16|
                #![trigger self@[p], self@[q]]
                self@.contains_key(p) && self@.contains_key(q) && self@[p].group == self@[q].group
                    ==> p == q,
    {
        assert forall|p: u16| #[trigger] self@.contains_key(p) implies self@[p].members.len()
            > 0 by {
            assert(self.groups@[p].members@.len() > 0);
        }
        assert forall|p: u16, q: u16|
            #![trigger self@[p], self@[q]]
            self@.contains_key(p) && self@.contains_key(q) && self@[p].group
                == self@[q].group implies p == q by {
            assert(self.group_ports@[self.groups@[p].group@] == p);
            assert(self.group_ports@[self.groups@[q].group@] == q);
        }
    }

    /// Joins a group: `true` for its first member, which has to bind the port.
    /// Refused where the group has another port, the port another group, or the
    /// group another key.
    pub fn join(&mut self, group: &str, group_key: &str, port: u16, proxy_name: &str) -> (r: Result<
        bool,
        GroupError,
    >)
        requires
            old(self).wf(),
        ensures
            final(self).wf(),
            join_outcome(
                old(self)@,
                group@,
                group_key@,
                port,
                proxy_name@,
                r,
                final(self)@,
            ),
    {
        proof {
            self.lemma_wf();
        }
        if let Some(bound) = self.group_ports.get(group) {
            if *bound != port {
                assert(has_port(self@, group@, *bound));
                return Err(
                    GroupError::BoundElsewhere { group: group.to_string(), bound: *bound, port },
                );
            }
        }
        assert forall|b: u16| #[trigger] has_port(self@, group@, b) implies b == port by {
            assert(self.group_ports@[self.groups@[b].group@] == b);
        }
        match self.groups.get(&port) {
            Some(state) => {
                if !same(state.group.as_str(), group) {
                    return Err(GroupError::PortTaken { port, group: state.group.clone() });
                }
                if !same(state.group_key.as_str(), group_key) {
                    return Err(GroupError::KeyMismatch { group: group.to_string() });
                }
            },
            None => {
                let name: String = proxy_name.to_string();
                let mut members: Vec<String> = Vec::new();
                members.push(name);
                let state = GroupState {
                    group: group.to_string(),
                    group_key: group_key.to_string(),
                    members,
                    rr_index: 0,
                };
                assert(texts(state.members@) =~= seq![proxy_name@]);
                assert(!self.group_ports@.contains_key(group@)) by {
                    if self.group_ports@.contains_key(group@) {
                        assert(self.groups@.contains_key(self.group_ports@[group@]));
                        assert(has_port(self@, group@, self.group_ports@[group@]));
                    }
                }
                self.groups.insert(port, state);
                self.group_ports.insert(group.to_string(), port);
                assert(self@ =~= old(self)@.insert(port, state@));
                return Ok(true);
            },
        }
        if let Some(state) = self.groups.remove(&port) {
            let mut state = state;
            let ghost before = state@;
            state.members.push(proxy_name.to_string());
            assert(texts(state.members@) =~= before.members.push(proxy_name@));
            self.groups.insert(port, state);
            assert(self@ =~= old(self)@.insert(port, state@));
        }
        Ok(false)
    }

    /// Leaves a group: `true` where that leaves the group without members, which
    /// ends it.
    pub fn leave(&mut self, port: u16, proxy_name: &str) -> (empty: bool)
        requires
            old(self).wf(),
        ensures
            final(self).wf(),
            empty == (old(self)@.contains_key(port) && without(
                old(self)@[port].members,
                proxy_name@,
            ).len() == 0),
            empty ==> final(self)@ == old(self)@.remove(port),
            !empty && old(self)@.contains_key(port) ==> final(self)@ == old(self)@.insert(
                port,
                (GroupView {
                    members: without(old(self)@[port].members, proxy_name@),
                    ..old(self)@[port]
                }),
            ),
            !old(self)@.contains_key(port) ==> final(self)@ == old(self)@,
    {
        match self.groups.remove(&port) {
            None => {
                assert(self@ =~= old(self)@);
                false
            },
            Some(state) => {
                let ghost before = state@;
                assert(old(self).groups@[port]@ == before);
                let mut members: Vec<String> = Vec::new();
                let mut i: usize = 0;
                while i < state.members.len()
                    invariant
                        i <= state.members.len(),
                        texts(members@) == without(texts(state.members@).take(i as int), proxy_name@),
                    decreases state.members.len() - i,
                {
                    let ghost upto = texts(state.members@).take(i + 1);
                    let ghost kept = texts(members@);
                    assert(upto.drop_last() == texts(state.members@).take(i as int));
                    if !same(state.members[i].as_str(), proxy_name) {
                        members.push(state.members[i].clone());
                        assert(texts(members@) =~= kept.push(upto.last()));
                    }
                    i = i + 1;
                }
                assert(texts(state.members@).take(i as int) == texts(state.members@));
                if members.len() == 0 {
                    assert(texts(members@).len() == 0);
                    let _ = self.group_ports.remove(state.group.as_str());
                    assert(self@ =~= old(self)@.remove(port));
                    true
                } else {
                    assert(texts(members@).len() > 0);
                    let state = GroupState { members, ..state };
                    self.groups.insert(port, state);
                    assert(self@ =~= old(self)@.insert(port, state@));
                    false
                }
            },
        }
    }

    /// The member that handles the next connection to a port.
    pub fn pick(&mut self, port: u16) -> (name: Option<String>)
        requires
            old(self).wf(),
        ensures
            final(self).wf(),
            match name {
                Some(n) => {
                    &&& old(self)@.contains_key(port)
                    &&& n@ == member_in_turn(old(self)@[port])
                    &&& final(self)@ == old(self)@.insert(
                        port,
                        (GroupView { turn: next_turn(old(self)@[port].turn), ..old(self)@[port] }),
                    )
                },
                None => !old(self)@.contains_key(port) && final(self)@ == old(self)@,
            },
    {
        match self.groups.remove(&port) {
            None => {
                assert(self@ =~= old(self)@);
                None
            },
            Some(state) => {
                let mut state = state;
                let ghost before = state@;
                assert(old(self).groups@[port]@ == before);
                assert(state.members@.len() > 0);
                let i: usize = state.rr_index % state.members.len();
                let name: String = state.members[i].clone();
                assert(before.members[i as int] == name@);
                state.rr_index = if state.rr_index == usize::MAX {
                    0
                } else {
                    state.rr_index + 1
                };
                self.groups.insert(port, state);
                assert(self@ =~= old(self)@.insert(port, state@));
                Some(name)
            },
        }
    }

    /// How many members the group of a port has.
    pub fn member_count(&self, port: u16) -> (n: usize)
        ensures
            n == (if self@.contains_key(port) {
                self@[port].members.len()
            } else {
                0
            }),
    {
        match self.groups.get(&port) {
            Some(state) => {
                assert(texts(state.members@).len() == state.members@.len());
                state.members.len()
            },
            None => 0,
        }
    }
}

/// A group whose last member left can be founded anew, under any key and on any
/// port that no group has.
pub proof fn law_ended_group_can_move(
    before: Map<u16, GroupView>,
    old_port: u16,
    new_port: u16,
    key: Seq<char>,
    name: Seq<char>,
    r: Result<bool, GroupError>,
    after: Map<u16, GroupView>,
)
    requires
        before.contains_key(old_port),
        only_on(before, before[old_port].group, old_port),
        !before.remove(old_port).contains_key(new_port),
        join_outcome(
            before.remove(old_port),
            before[old_port].group,
            key,
            new_port,
            name,
            r,
            after,
        ),
    ensures
        r == Ok::<bool, GroupError>(true),
{
    let group = before[old_port].group;
    assert forall|b: u16| !#[trigger] has_port(before.remove(old_port), group, b) by {
        if has_port(before.remove(old_port), group, b) {
            assert(has_port(before, group, b));
        }
    }
}

/// The group after `n` connections were given out.
pub open spec fn after_picks(g: GroupView, n: nat) -> GroupView {
    GroupView { turn: (g.turn + n) as usize, ..g }
}

/// Of as many connections as a group has members, each member gets exactly one:
/// the member at `k` gets the one that this law names, and no other. The count of
/// connections must not wrap around meanwhile.
pub proof fn law_each_member_has_its_turn(g: GroupView, k: int) -> (i: nat)
    requires
        0 <= k < g.members.len(),
        g.turn + g.members.len() <= usize::MAX,
    ensures
        i < g.members.len(),
        member_in_turn(after_picks(g, i)) == g.members[k],
        forall|j: nat|
            j < g.members.len() && j != i ==> (#[trigger] after_picks(g, j).turn as int) % (
            g.members.len() as int) != k,
{
    let n = g.members.len() as int;
    let t = g.turn as int;
    let i = (k - t % n + n) % n;
    vstd::arithmetic::div_mod::lemma_mod_bound(k - t % n + n, n);
    assert((t + i) % n == k) by {
        vstd::arithmetic::div_mod::lemma_add_mod_noop(t, k - t % n + n, n);
        vstd::arithmetic::div_mod::lemma_add_mod_noop_right(t, k - t % n + n, n);
        vstd::arithmetic::div_mod::lemma_fundamental_div_mod(t, n);
        let q = t / n;
        assert(t + (k - t % n + n) == k + n * (q + 1)) by (nonlinear_arith)
            requires
                t == n * q + t % n,
        ;
        vstd::arithmetic::div_mod::lemma_mod_multiples_vanish(q + 1, k, n);
        vstd::arithmetic::div_mod::lemma_small_mod(k as nat, n as nat);
    }
    assert forall|j: nat| j < n && j != i implies (#[trigger] after_picks(g, j).turn as int) % n
        != k by {
        if (t + j) % n == k {
            lemma_same_remainder(t + i, t + j as int, n);
        }
    }
    i as nat
}

proof fn lemma_same_remainder(a: int, b: int, n: int)
    requires
        n > 0,
        a % n == b % n,
        -n < a - b < n,
    ensures
        a == b,
{
    vstd::arithmetic::div_mod::lemma_fundamental_div_mod(a, n);
    vstd::arithmetic::div_mod::lemma_fundamental_div_mod(b, n);
    let x = a / n;
    let y = b / n;
    assert(a - b == n * (x - y)) by (nonlinear_arith)
        requires
            a == n * x + a % n,
            b == n * y + b % n,
            a % n == b % n,
    ;
    assert(x == y) by (nonlinear_arith)
        requires
            -n < n * (x - y) < n,
            n > 0,
    ;
}

} // verus!
