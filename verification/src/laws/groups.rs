//! Groups of proxies that share a port, and maps by name.
use crate::config::ProxyConfig;
use crate::groups::{group_listener_key, GroupError, GroupRegistry};
use crate::message::ProxyManager;
use crate::names::NameMap;
use crate::proxies::{ProxyRefusal, ServerProxyManager, StartAction, StopAction};
use crate::server::{route_visitor, VisitorRoute};
use crate::session::ServerState;
use crate::text::decimal;
use vstd::prelude::*;
use vstd::string::*;

verus! {

/// The first proxy of a group opens its port, the next one shares it, and connections go
/// to the two in turn, beginning with the first.
pub proof fn law_connections_go_in_turn(
    fresh: GroupRegistry,
    m0: &mut GroupRegistry,
    m1: &mut GroupRegistry,
    m2: &mut GroupRegistry,
    m3: &mut GroupRegistry,
    m4: &mut GroupRegistry,
    group: &str,
    key: &str,
    port: u16,
    one: &str,
    two: &str,
    r1: Result<bool, GroupError>,
    r2: Result<bool, GroupError>,
    a: Option<String>,
    b: Option<String>,
    c: Option<String>,
    count: usize,
)
    requires
        call_ensures(<GroupRegistry as Default>::default, (), fresh),
        *old(m0) == fresh,
        call_ensures(GroupRegistry::join, (m0, group, key, port, one), r1),
        *old(m1) == *final(m0),
        call_ensures(GroupRegistry::join, (m1, group, key, port, two), r2),
        call_ensures(GroupRegistry::member_count, (&*final(m1), port), count),
        *old(m2) == *final(m1),
        call_ensures(GroupRegistry::pick, (m2, port), a),
        *old(m3) == *final(m2),
        call_ensures(GroupRegistry::pick, (m3, port), b),
        *old(m4) == *final(m3),
        call_ensures(GroupRegistry::pick, (m4, port), c),
    ensures
        r1 == Ok::<bool, GroupError>(true),
        r2 == Ok::<bool, GroupError>(false),
        count == 2,
        a is Some && a->0@ == one@,
        b is Some && b->0@ == two@,
        c is Some && c->0@ == one@,
{
    if let Err(GroupError::BoundElsewhere { bound, .. }) = r1 {
        assert(crate::groups::has_port(old(m0)@, group@, bound));
    }
    if let Err(GroupError::BoundElsewhere { bound, .. }) = r2 {
        assert(crate::groups::has_port(old(m1)@, group@, bound));
    }
    let g = final(m1)@[port];
    assert(g.members =~= seq![one@, two@]);
    assert(0int % 2 == 0 && 1int % 2 == 1 && 2int % 2 == 0);
}

/// The member after the one that got a connection gets the next one, in the order in
/// which they joined; after the last the first one does. The count of connections must
/// not wrap around meanwhile.
pub proof fn law_turns_follow_the_order(
    m0: &mut GroupRegistry,
    m1: &mut GroupRegistry,
    port: u16,
    a: Option<String>,
    b: Option<String>,
) -> (k: int)
    requires
        old(m0).wf(),
        old(m0)@.contains_key(port),
        old(m0)@[port].turn < usize::MAX,
        call_ensures(GroupRegistry::pick, (m0, port), a),
        *old(m1) == *final(m0),
        call_ensures(GroupRegistry::pick, (m1, port), b),
    ensures
        ({
            let members = old(m0)@[port].members;
            &&& 0 <= k < members.len()
            &&& a is Some && a->0@ == members[k]
            &&& b is Some && b->0@ == members[(if k + 1 < members.len() {
                k + 1
            } else {
                0
            })]
        }),
{
    old(m0).lemma_wf();
    let g = old(m0)@[port];
    let n = g.members.len() as int;
    let t = g.turn as int;
    let k = t % n;
    vstd::arithmetic::div_mod::lemma_mod_bound(t, n);
    vstd::arithmetic::div_mod::lemma_add_mod_noop(t, 1, n);
    vstd::arithmetic::div_mod::lemma_add_mod_noop_right(1, t, n);
    assert((t + 1) % n == (k + 1) % n);
    if k + 1 < n {
        vstd::arithmetic::div_mod::lemma_small_mod((k + 1) as nat, n as nat);
    } else {
        vstd::arithmetic::div_mod::lemma_mod_self_0(n);
    }
    k
}

/// A connection is handed to a member of the group of its port, whatever happened before;
/// nobody else gets it, and a port without a group has nobody.
pub proof fn law_only_members_are_picked(
    m: &mut GroupRegistry,
    port: u16,
    count: usize,
    picked: Option<String>,
)
    requires
        old(m).wf(),
        call_ensures(GroupRegistry::member_count, (&*old(m), port), count),
        call_ensures(GroupRegistry::pick, (m, port), picked),
    ensures
        picked is Some == (count > 0),
        picked matches Some(n) ==> old(m)@[port].members.contains(n@),
{
    old(m).lemma_wf();
    if let Some(n) = picked {
        let g = old(m)@[port];
        let len = g.members.len() as int;
        let i = (g.turn as int) % len;
        vstd::arithmetic::div_mod::lemma_mod_bound(g.turn as int, len);
        assert(g.members[i] == n@);
    }
}

/// A proxy that brings another key than the group's is refused for that, and so is one on
/// another port than the group's, and one on the port of another group; none of them
/// joins.
pub proof fn law_strangers_do_not_join(
    m0: &mut GroupRegistry,
    m1: &mut GroupRegistry,
    group: &str,
    key: &str,
    port: u16,
    one: &str,
    first: bool,
    group2: &str,
    key2: &str,
    port2: u16,
    two: &str,
    r: Result<bool, GroupError>,
    before: usize,
    after: usize,
)
    requires
        old(m0).wf(),
        call_ensures(GroupRegistry::join, (m0, group, key, port, one), Ok(first)),
        *old(m1) == *final(m0),
        call_ensures(GroupRegistry::join, (m1, group2, key2, port2, two), r),
        call_ensures(GroupRegistry::member_count, (&*old(m1), port2), before),
        call_ensures(GroupRegistry::member_count, (&*final(m1), port2), after),
    ensures
        group2@ == group@ && port2 == port && key2@ == key@ ==> r == Ok::<bool, GroupError>(false)
            && after == before + 1,
        group2@ == group@ && port2 == port && key2@ != key@ ==> (r matches Err(
            GroupError::KeyMismatch { group: g },
        ) && g@ == group@),
        group2@ == group@ && port2 != port ==> (r matches Err(
            GroupError::BoundElsewhere { group: g, bound, port: p },
        ) && g@ == group@ && bound == port && p == port2),
        group2@ != group@ && port2 == port ==> r is Err && !(r->Err_0 is KeyMismatch),
        r is Err ==> after == before,
{
    let m = old(m1)@;
    final(m0).lemma_wf();
    assert(crate::groups::has_port(m, group@, port));
    if group2@ == group@ && port2 != port {
        if let Err(GroupError::BoundElsewhere { bound, .. }) = r {
            assert(m[bound].group == m[port].group);
        }
    }
    if let Err(GroupError::BoundElsewhere { bound, .. }) = r {
        assert(crate::groups::has_port(m, group2@, bound));
        assert(m[bound].group == group2@);
    }
}

/// The last proxy that leaves a group ends it: the port is free then, and no connection
/// goes to anybody.
pub proof fn law_last_member_ends_the_group(
    fresh: GroupRegistry,
    m0: &mut GroupRegistry,
    m1: &mut GroupRegistry,
    m2: &mut GroupRegistry,
    m3: &mut GroupRegistry,
    m4: &mut GroupRegistry,
    group: &str,
    key: &str,
    port: u16,
    one: &str,
    two: &str,
    r1: Result<bool, GroupError>,
    r2: Result<bool, GroupError>,
    left: bool,
    a: Option<String>,
    ended: bool,
    count: usize,
)
    requires
        one@ != two@,
        call_ensures(<GroupRegistry as Default>::default, (), fresh),
        *old(m0) == fresh,
        call_ensures(GroupRegistry::join, (m0, group, key, port, one), r1),
        *old(m1) == *final(m0),
        call_ensures(GroupRegistry::join, (m1, group, key, port, two), r2),
        *old(m2) == *final(m1),
        call_ensures(GroupRegistry::leave, (m2, port, one), left),
        *old(m3) == *final(m2),
        call_ensures(GroupRegistry::pick, (m3, port), a),
        *old(m4) == *final(m3),
        call_ensures(GroupRegistry::leave, (m4, port, two), ended),
        call_ensures(GroupRegistry::member_count, (&*final(m4), port), count),
    ensures
        !left,
        a is Some && a->0@ == two@,
        ended,
        count == 0,
{
    if let Err(GroupError::BoundElsewhere { bound, .. }) = r1 {
        assert(crate::groups::has_port(old(m0)@, group@, bound));
    }
    if let Err(GroupError::BoundElsewhere { bound, .. }) = r2 {
        assert(crate::groups::has_port(old(m1)@, group@, bound));
    }
    let members = final(m1)@[port].members;
    assert(members =~= seq![one@, two@]);
    assert(members.drop_last() =~= seq![one@]);
    assert(members.drop_last().drop_last() =~= Seq::<Seq<char>>::empty());
    reveal_with_fuel(crate::groups::without, 3);
    assert(crate::groups::without(members, one@) =~= seq![two@]);
    assert(seq![two@].drop_last() =~= Seq::<Seq<char>>::empty());
    assert(crate::groups::without(seq![two@], two@).len() == 0);
    let g = final(m2)@[port];
    assert((g.turn as int) % 1 == 0);
}

/// The listener of a group is kept under a name that holds its port.
pub proof fn law_listener_key(port: u16, key: String)
    requires
        call_ensures(group_listener_key, (port,), key),
    ensures
        key@ == "__group_port_"@ + decimal(port as nat) + "__"@,
{
}

/// Only TCP proxies without a plugin and with a port can be in a group; each other one is
/// refused with the reason.
pub proof fn law_who_may_be_in_a_group(
    manager: &mut ServerProxyManager,
    config: ProxyConfig,
    user: &str,
    r: Result<StartAction, ProxyRefusal>,
)
    requires
        old(manager).wf(),
        !old(manager).proxies().contains_key(config.name@),
        config.group is Some,
        call_ensures(ServerProxyManager::add_proxy_for_user, (manager, config, user), r),
    ensures
        config.kind@ != "tcp"@ ==> r is Err && r->Err_0 is GroupNotTcp,
        config.kind@ == "tcp"@ && config.plugin is Some ==> r is Err && r->Err_0 is GroupWithPlugin,
        config.kind@ == "tcp"@ && config.plugin is None && config.remote_port is None ==> r is Err
            && r->Err_0 is GroupWithoutPort,
{
}

/// The first proxy of a group opens its port under the name of the group's listener; a
/// second one with the same group, key and port shares it. When both are removed the
/// listener is closed with the last one, not before.
pub proof fn law_group_shares_one_listener(
    m0: &mut ServerProxyManager,
    m1: &mut ServerProxyManager,
    m2: &mut ServerProxyManager,
    m3: &mut ServerProxyManager,
    one: ProxyConfig,
    two: ProxyConfig,
    name1: &str,
    name2: &str,
    port: u16,
    a: StartAction,
    b: StartAction,
    c: StopAction,
    d: StopAction,
)
    requires
        old(m0).wf(),
        one.kind@ == "tcp"@,
        two.kind@ == "tcp"@,
        one.group is Some,
        two.group is Some,
        one.group->0@ == two.group->0@,
        one.group_key == two.group_key,
        one.remote_port == Some(port),
        two.remote_port == Some(port),
        one.name@ == name1@,
        two.name@ == name2@,
        !old(m0).groups().contains_key(port),
        call_ensures(<ServerProxyManager as ProxyManager>::add_proxy, (m0, one), Ok(a)),
        *old(m1) == *final(m0),
        call_ensures(<ServerProxyManager as ProxyManager>::add_proxy, (m1, two), Ok(b)),
        *old(m2) == *final(m1),
        call_ensures(<ServerProxyManager as ProxyManager>::remove_proxy, (m2, name1), c),
        *old(m3) == *final(m2),
        call_ensures(<ServerProxyManager as ProxyManager>::remove_proxy, (m3, name2), d),
    ensures
        a matches StartAction::BindTcp { port: p, key, grouped } && p == port && grouped && key@
            == "__group_port_"@ + decimal(port as nat) + "__"@,
        b is Shared,
        c is KeepShared,
        d matches StopAction::CloseShared { key } && key@ == "__group_port_"@ + decimal(port as nat)
            + "__"@,
{
    assert(name1@ != name2@);
    let members = final(m1).groups()[port].members;
    assert(members =~= seq![name1@, name2@]);
    assert(members.drop_last() =~= seq![name1@]);
    assert(members.drop_last().drop_last() =~= Seq::<Seq<char>>::empty());
    reveal_with_fuel(crate::groups::without, 3);
    assert(crate::groups::without(members, name1@) =~= seq![name2@]);
    assert(seq![name2@].drop_last() =~= Seq::<Seq<char>>::empty());
    assert(crate::groups::without(seq![name2@], name2@).len() == 0);
}

/// A visitor of a shared listener goes to the member that is picked next.
pub proof fn law_visitors_of_a_group_go_in_turn<C, T>(
    state: &mut ServerState<C, T>,
    proxy_name: &str,
    port: u16,
    picking: &mut ServerProxyManager,
    picked: Option<String>,
    route: VisitorRoute,
)
    requires
        old(state).wf(),
        *old(picking) == old(state).proxies,
        call_ensures(ServerProxyManager::pick_member, (picking, port), picked),
        call_ensures(
            route_visitor::<C, T>,
            (state, proxy_name, Some(port), false),
            route,
        ),
    ensures
        picked matches Some(n) ==> match route {
            VisitorRoute::WorkConn { target, .. } => target@ == n@,
            VisitorRoute::Unreachable { target, .. } => target@ == n@,
            _ => false,
        },
        picked is None ==> route is Respond,
{
}

/// A value that was put under a name is found under it, and under no other name; what was
/// taken out is not found.
pub proof fn law_maps_keep_what_they_are_given<V>(
    added: &mut NameMap<V>,
    removed: &mut NameMap<V>,
    name: String,
    key: &str,
    other: &str,
    value: V,
    found: Option<&V>,
    before: Option<&V>,
    between: Option<&V>,
    taken: Option<V>,
    gone: Option<&V>,
    after: Option<&V>,
    known: bool,
)
    requires
        name@ == key@,
        other@ != key@,
        call_ensures(NameMap::<V>::get, (&*old(added), other), before),
        call_ensures(NameMap::<V>::insert, (added, name, value), ()),
        call_ensures(NameMap::<V>::get, (&*final(added), key), found),
        call_ensures(NameMap::<V>::contains, (&*final(added), key), known),
        call_ensures(NameMap::<V>::get, (&*final(added), other), between),
        *old(removed) == *final(added),
        call_ensures(NameMap::<V>::remove, (removed, key), taken),
        call_ensures(NameMap::<V>::get, (&*final(removed), key), gone),
        call_ensures(NameMap::<V>::get, (&*final(removed), other), after),
    ensures
        found == Some(&value),
        known,
        taken == Some(value),
        gone is None,
        before == between,
        before == after,
{
}

/// A new map holds nothing, and neither does one that was cleared.
pub proof fn law_empty_maps_hold_nothing<V>(
    fresh: NameMap<V>,
    cleared: &mut NameMap<V>,
    key: &str,
    a: Option<&V>,
    b: Option<&V>,
    n: usize,
)
    requires
        call_ensures(NameMap::<V>::new, (), fresh),
        call_ensures(NameMap::<V>::get, (&fresh, key), a),
        call_ensures(NameMap::<V>::clear, (cleared,), ()),
        call_ensures(NameMap::<V>::get, (&*final(cleared), key), b),
        call_ensures(NameMap::<V>::len, (&*final(cleared),), n),
    ensures
        a is None,
        b is None,
        n == 0,
{
}

/// A proxy that brings another key than the group has is refused, and so is one whose
/// group has another port.
pub proof fn law_proxies_need_the_key_of_their_group(
    m0: &mut ServerProxyManager,
    m1: &mut ServerProxyManager,
    one: ProxyConfig,
    two: ProxyConfig,
    port: u16,
    a: StartAction,
    r: Result<StartAction, ProxyRefusal>,
)
    requires
        old(m0).wf(),
        one.kind@ == "tcp"@,
        two.kind@ == "tcp"@,
        one.group is Some && two.group is Some && one.group->0@ == two.group->0@,
        one.group_key is Some && two.group_key is Some && one.group_key->0@ != two.group_key->0@,
        one.remote_port == Some(port),
        two.remote_port == Some(port),
        one.name@ != two.name@,
        !old(m0).groups().contains_key(port),
        call_ensures(<ServerProxyManager as ProxyManager>::add_proxy, (m0, one), Ok(a)),
        *old(m1) == *final(m0),
        call_ensures(<ServerProxyManager as ProxyManager>::add_proxy, (m1, two), r),
    ensures
        r is Err,
        final(m1).proxies() == old(m1).proxies(),
        final(m1).groups() == old(m1).groups(),
{
    assert(final(m0).groups()[port].key == one.group_key->0@);
}

/// What is at a place in a map is found by the name that is there, and what is taken out
/// at a place is not found any more.
pub proof fn law_places_in_a_map<V>(
    m: &mut NameMap<V>,
    i: usize,
    name: &String,
    value: &V,
    key: &str,
    found: Option<&V>,
    taken: (String, V),
    gone: Option<&V>,
    values: Vec<&V>,
)
    requires
        i < old(m).names().len(),
        call_ensures(NameMap::<V>::name_at, (&*old(m), i), name),
        call_ensures(NameMap::<V>::value_at, (&*old(m), i), value),
        key@ == name@,
        call_ensures(NameMap::<V>::get, (&*old(m), key), found),
        call_ensures(NameMap::<V>::values, (&*old(m),), values),
        call_ensures(NameMap::<V>::remove_at, (m, i), taken),
        call_ensures(NameMap::<V>::get, (&*final(m), key), gone),
    ensures
        found == Some(value),
        values@[i as int] == value,
        taken.0@ == name@,
        taken.1 == *value,
        gone is None,
{
}

} // verus!
