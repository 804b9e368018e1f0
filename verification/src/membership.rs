use crate::contract::{ServiceSelector, ServiceSelectorView};
use crate::invocation::keep;
use crate::text::str_eq;
use vstd::prelude::*;

verus! {

/// The characters of a discovery endpoint: its service and its endpoint URL.
pub type EndpointView = (Seq<char>, Seq<char>);

/// An endpoint of a service as discovery reports it.
#[derive(Clone, Debug, PartialEq, Eq, Hash)]
pub struct DiscoveryEndpoint {
    service: String,
    endpoint: String,
}

impl View for DiscoveryEndpoint {
    type V = EndpointView;

    closed spec fn view(&self) -> EndpointView {
        (self.service@, self.endpoint@)
    }
}

impl DiscoveryEndpoint {
    /// Names the endpoint `endpoint` of service `service`.
    pub fn new(service: String, endpoint: String) -> (e: Self)
        ensures
            e@ == (service@, endpoint@),
    {
        DiscoveryEndpoint { service, endpoint }
    }

    /// Returns the service.
    pub fn service(&self) -> (service: &str)
        ensures
            service@ == self@.0,
    {
        self.service.as_str()
    }

    /// Returns the endpoint URL.
    pub fn endpoint(&self) -> (endpoint: &str)
        ensures
            endpoint@ == self@.1,
    {
        self.endpoint.as_str()
    }

    /// Returns an equal copy.
    pub fn duplicate(&self) -> (copy: Self)
        ensures
            copy@ == self@,
    {
        DiscoveryEndpoint { service: self.service.clone(), endpoint: self.endpoint.clone() }
    }

    /// Returns whether both name the same service and endpoint.
    pub fn same_as(&self, other: &DiscoveryEndpoint) -> (same: bool)
        ensures
            same == (self@ == other@),
    {
        str_eq(self.service.as_str(), other.service.as_str()) && str_eq(self.endpoint.as_str(), other.endpoint.as_str())
    }
}

/// The value of the last entry with key `k`, if any.
pub open spec fn lookup<K, V>(entries: Seq<(K, V)>, k: K) -> Option<V>
    decreases entries.len(),
{
    if entries.len() == 0 {
        None
    } else if entries.last().0 == k {
        Some(entries.last().1)
    } else {
        lookup(entries.drop_last(), k)
    }
}

/// Whether no key occurs twice.
pub open spec fn unique_keys<K, V>(entries: Seq<(K, V)>) -> bool {
    forall|i: int, j: int| 0 <= i < j < entries.len() ==> entries[i].0 != entries[j].0
}

/// Whether no element occurs twice.
pub open spec fn no_duplicates<A>(s: Seq<A>) -> bool {
    forall|i: int, j: int| 0 <= i < j < s.len() ==> s[i] != s[j]
}

/// How many owners' snapshots hold `e`.
pub open spec fn holders(owners: Seq<(ServiceSelectorView, Seq<EndpointView>)>, e: EndpointView) -> nat
    decreases owners.len(),
{
    if owners.len() == 0 {
        0
    } else {
        holders(owners.drop_last(), e) + if owners.last().1.contains(e) { 1nat } else { 0nat }
    }
}

/// The reference count recorded for `e`; zero when none is recorded.
pub open spec fn references_of(references: Seq<(EndpointView, nat)>, e: EndpointView) -> nat {
    match lookup(references, e) {
        Some(count) => count,
        None => 0,
    }
}

proof fn lemma_lookup_absent<K, V>(entries: Seq<(K, V)>, k: K)
    requires
        forall|i: int| 0 <= i < entries.len() ==> entries[i].0 != k,
    ensures
        lookup(entries, k) is None,
    decreases entries.len(),
{
    if entries.len() > 0 {
        lemma_lookup_absent(entries.drop_last(), k);
    }
}

proof fn lemma_lookup_at<K, V>(entries: Seq<(K, V)>, i: int)
    requires
        unique_keys(entries),
        0 <= i < entries.len(),
    ensures
        lookup(entries, entries[i].0) == Some(entries[i].1),
    decreases entries.len(),
{
    if i < entries.len() - 1 {
        lemma_lookup_at(entries.drop_last(), i);
    }
}

proof fn lemma_lookup_update<K, V>(entries: Seq<(K, V)>, i: int, v: V, k: K)
    requires
        unique_keys(entries),
        0 <= i < entries.len(),
    ensures
        lookup(entries.update(i, (entries[i].0, v)), k) == if k == entries[i].0 { Some(v) } else { lookup(entries, k) },
    decreases entries.len(),
{
    let updated = entries.update(i, (entries[i].0, v));
    if i == entries.len() - 1 {
        assert(updated.drop_last() =~= entries.drop_last());
    } else {
        assert(updated.drop_last() =~= entries.drop_last().update(i, (entries[i].0, v)));
        lemma_lookup_update(entries.drop_last(), i, v, k);
    }
}

proof fn lemma_lookup_remove<K, V>(entries: Seq<(K, V)>, i: int, k: K)
    requires
        unique_keys(entries),
        0 <= i < entries.len(),
    ensures
        lookup(entries.remove(i), k) == if k == entries[i].0 { None } else { lookup(entries, k) },
    decreases entries.len(),
{
    let removed = entries.remove(i);
    if i == entries.len() - 1 {
        assert(removed =~= entries.drop_last());
        if k == entries[i].0 {
            lemma_lookup_absent(entries.drop_last(), k);
        }
    } else {
        assert(removed.drop_last() =~= entries.drop_last().remove(i));
        assert(removed.last() == entries.last());
        lemma_lookup_remove(entries.drop_last(), i, k);
    }
}

proof fn lemma_holders_remove(owners: Seq<(ServiceSelectorView, Seq<EndpointView>)>, i: int, e: EndpointView)
    requires
        0 <= i < owners.len(),
    ensures
        holders(owners, e) == holders(owners.remove(i), e) + if owners[i].1.contains(e) { 1nat } else { 0nat },
    decreases owners.len(),
{
    let removed = owners.remove(i);
    if i == owners.len() - 1 {
        assert(removed =~= owners.drop_last());
    } else {
        assert(removed.drop_last() =~= owners.drop_last().remove(i));
        assert(removed.last() == owners.last());
        lemma_holders_remove(owners.drop_last(), i, e);
    }
}

proof fn lemma_holders_le(owners: Seq<(ServiceSelectorView, Seq<EndpointView>)>, e: EndpointView)
    ensures
        holders(owners, e) <= owners.len(),
    decreases owners.len(),
{
    if owners.len() > 0 {
        lemma_holders_le(owners.drop_last(), e);
    }
}

/// An endpoint has holders exactly when some owner's snapshot contains it.
pub proof fn lemma_holders_positive(owners: Seq<(ServiceSelectorView, Seq<EndpointView>)>, e: EndpointView)
    ensures
        holders(owners, e) > 0 <==> exists|i: int| 0 <= i < owners.len() && (#[trigger] owners[i]).1.contains(e),
    decreases owners.len(),
{
    if owners.len() > 0 {
        lemma_holders_positive(owners.drop_last(), e);
        if holders(owners.drop_last(), e) > 0 {
            let i = choose|i: int| 0 <= i < owners.drop_last().len() && (#[trigger] owners.drop_last()[i]).1.contains(e);
            assert(owners[i] == owners.drop_last()[i]);
        }
        if exists|i: int| 0 <= i < owners.len() && (#[trigger] owners[i]).1.contains(e) {
            let i = choose|i: int| 0 <= i < owners.len() && (#[trigger] owners[i]).1.contains(e);
            if i < owners.len() - 1 {
                assert(owners.drop_last()[i] == owners[i]);
            }
        }
    }
}

/// The discovery memberships of a runtime: each subscription's latest endpoint set,
/// and how many subscriptions hold each endpoint.
pub struct Memberships {
    owners: Vec<(ServiceSelector, Vec<DiscoveryEndpoint>)>,
    references: Vec<(DiscoveryEndpoint, usize)>,
}

/// The abstract content of [`Memberships`].
pub struct MembershipsView {
    pub owners: Seq<(ServiceSelectorView, Seq<EndpointView>)>,
    pub references: Seq<(EndpointView, nat)>,
}

/// The views of a list of endpoints.
pub open spec fn endpoint_views(endpoints: Seq<DiscoveryEndpoint>) -> Seq<EndpointView> {
    endpoints.map_values(|e: DiscoveryEndpoint| e@)
}

/// The views of the owner entries.
pub open spec fn owner_views(owners: Seq<(ServiceSelector, Vec<DiscoveryEndpoint>)>) -> Seq<(ServiceSelectorView, Seq<EndpointView>)> {
    owners.map_values(|o: (ServiceSelector, Vec<DiscoveryEndpoint>)| (o.0@, endpoint_views(o.1@)))
}

/// The views of the reference entries.
pub open spec fn reference_views(references: Seq<(DiscoveryEndpoint, usize)>) -> Seq<(EndpointView, nat)> {
    references.map_values(|r: (DiscoveryEndpoint, usize)| (r.0@, r.1 as nat))
}

impl View for Memberships {
    type V = MembershipsView;

    closed spec fn view(&self) -> MembershipsView {
        MembershipsView { owners: owner_views(self.owners@), references: reference_views(self.references@) }
    }
}

/// The memberships invariant: one entry per owner, endpoint sets without repeats,
/// one positive reference count per endpoint, and every endpoint's count equals the
/// number of owners holding it.
pub open spec fn memberships_wf(v: MembershipsView) -> bool {
    &&& unique_keys(v.owners)
    &&& forall|i: int| 0 <= i < v.owners.len() ==> no_duplicates(#[trigger] v.owners[i].1)
    &&& unique_keys(v.references)
    &&& forall|i: int| 0 <= i < v.references.len() ==> (#[trigger] v.references[i]).1 > 0
    &&& forall|e: EndpointView| #[trigger] references_of(v.references, e) == holders(v.owners, e)
}

/// The endpoints an owner held, none when it had no entry.
pub open spec fn held_by(v: MembershipsView, owner: ServiceSelectorView) -> Seq<EndpointView> {
    match lookup(v.owners, owner) {
        Some(set) => set,
        None => Seq::empty(),
    }
}

/// Whether `e` is a discovery member: some owner holds it.
pub open spec fn is_member_spec(v: MembershipsView, e: EndpointView) -> bool {
    holders(v.owners, e) > 0
}

fn position(endpoints: &Vec<DiscoveryEndpoint>, e: &DiscoveryEndpoint) -> (index: Option<usize>)
    ensures
        match index {
            Some(i) => i < endpoints@.len() && endpoint_views(endpoints@)[i as int] == e@,
            None => !endpoint_views(endpoints@).contains(e@),
        },
{
    let ghost views = endpoint_views(endpoints@);
    let mut i: usize = 0;
    while i < endpoints.len()
        invariant
            views == endpoint_views(endpoints@),
            i <= views.len(),
            forall|k: int| 0 <= k < i ==> views[k] != e@,
        decreases views.len() - i,
    {
        if endpoints[i].same_as(e) {
            return Some(i);
        }
        i = i + 1;
    }
    None
}

/// Returns the endpoints of `endpoints` without repeats, in first-seen order.
pub fn deduplicate(endpoints: &Vec<DiscoveryEndpoint>) -> (unique: Vec<DiscoveryEndpoint>)
    ensures
        no_duplicates(endpoint_views(unique@)),
        forall|e: EndpointView| endpoint_views(unique@).contains(e) <==> endpoint_views(endpoints@).contains(e),
{
    let ghost views = endpoint_views(endpoints@);
    let mut unique: Vec<DiscoveryEndpoint> = Vec::new();
    let mut i: usize = 0;
    while i < endpoints.len()
        invariant
            views == endpoint_views(endpoints@),
            i <= views.len(),
            no_duplicates(endpoint_views(unique@)),
            forall|e: EndpointView| endpoint_views(unique@).contains(e) <==> views.take(i as int).contains(e),
        decreases views.len() - i,
    {
        let ghost before = endpoint_views(unique@);
        assert(views.take(i + 1) =~= views.take(i as int).push(views[i as int]));
        proof {
            broadcast use vstd::seq_lib::lemma_seq_contains_after_push;
        }
        match position(&unique, &endpoints[i]) {
            Some(j) => {
                assert(before[j as int] == views[i as int]);
                assert(before.contains(views[i as int]));
            },
            None => {
                unique.push(endpoints[i].duplicate());
                assert(endpoint_views(unique@) =~= before.push(views[i as int]));
            },
        }
        i = i + 1;
    }
    assert(views.take(views.len() as int) =~= views);
    unique
}

impl Memberships {
    /// Memberships without owners.
    pub fn new() -> (m: Self)
        ensures
            m@.owners.len() == 0,
            m@.references.len() == 0,
            memberships_wf(m@),
    {
        let m = Memberships { owners: Vec::new(), references: Vec::new() };
        assert(m@.owners =~= Seq::empty());
        assert(m@.references =~= Seq::empty());
        m
    }

    fn find_reference(&self, e: &DiscoveryEndpoint) -> (index: Option<usize>)
        ensures
            match index {
                Some(i) => i < self@.references.len() && self@.references[i as int].0 == e@,
                None => forall|k: int| 0 <= k < self@.references.len() ==> self@.references[k].0 != e@,
            },
    {
        let ghost views = self@.references;
        let mut i: usize = 0;
        while i < self.references.len()
            invariant
                views == self@.references,
                i <= views.len(),
                forall|k: int| 0 <= k < i ==> views[k].0 != e@,
            decreases views.len() - i,
        {
            if self.references[i].0.same_as(e) {
                return Some(i);
            }
            i = i + 1;
        }
        None
    }

    fn find_owner(&self, owner: &ServiceSelector) -> (index: Option<usize>)
        ensures
            match index {
                Some(i) => i < self@.owners.len() && self@.owners[i as int].0 == owner@,
                None => forall|k: int| 0 <= k < self@.owners.len() ==> self@.owners[k].0 != owner@,
            },
    {
        let ghost views = self@.owners;
        let mut i: usize = 0;
        while i < self.owners.len()
            invariant
                views == self@.owners,
                i <= views.len(),
                forall|k: int| 0 <= k < i ==> views[k].0 != owner@,
            decreases views.len() - i,
        {
            if self.owners[i].0.same_as(owner) {
                return Some(i);
            }
            i = i + 1;
        }
        None
    }

    /// Returns whether `e` is a discovery member: some owner holds it.
    pub fn is_member(&self, e: &DiscoveryEndpoint) -> (member: bool)
        requires
            memberships_wf(self@),
        ensures
            member == is_member_spec(self@, e@),
    {
        match self.find_reference(e) {
            Some(i) => {
                proof {
                    lemma_lookup_at(self@.references, i as int);
                    assert(references_of(self@.references, e@) == holders(self@.owners, e@));
                }
                true
            },
            None => {
                proof {
                    lemma_lookup_absent(self@.references, e@);
                    assert(references_of(self@.references, e@) == holders(self@.owners, e@));
                }
                false
            },
        }
    }

    proof fn lemma_take_contains(s: Seq<EndpointView>, i: int, x: EndpointView)
        requires
            0 <= i < s.len(),
        ensures
            s.take(i + 1).contains(x) <==> s.take(i).contains(x) || x == s[i],
    {
        broadcast use vstd::seq_lib::lemma_seq_contains_after_push;
        assert(s.take(i + 1) =~= s.take(i).push(s[i]));
    }

    /// Releases the memberships of `previous` that `current` does not keep, collecting
    /// the endpoints no owner holds any more.
    fn release_all(&mut self, previous: &Vec<DiscoveryEndpoint>, current: &Vec<DiscoveryEndpoint>,
        Ghost(others): Ghost<Seq<(ServiceSelectorView, Seq<EndpointView>)>>) -> (evicted: Vec<DiscoveryEndpoint>)
        requires
            unique_keys(old(self)@.references),
            forall|i: int| 0 <= i < old(self)@.references.len() ==> (#[trigger] old(self)@.references[i]).1 > 0,
            no_duplicates(endpoint_views(previous@)),
            forall|x: EndpointView| #[trigger] references_of(old(self)@.references, x) == holders(others, x)
                + if endpoint_views(previous@).contains(x) { 1nat } else { 0nat },
        ensures
            final(self)@.owners == old(self)@.owners,
            unique_keys(final(self)@.references),
            forall|i: int| 0 <= i < final(self)@.references.len() ==> (#[trigger] final(self)@.references[i]).1 > 0,
            forall|x: EndpointView| #[trigger] references_of(final(self)@.references, x) == holders(others, x)
                + if endpoint_views(previous@).contains(x) && endpoint_views(current@).contains(x) { 1nat } else { 0nat },
            endpoint_views(evicted@) == keep(endpoint_views(previous@), no_longer_held(endpoint_views(current@), others)),
    {
        let ghost prev = endpoint_views(previous@);
        let ghost cur = endpoint_views(current@);
        let ghost pred = no_longer_held(cur, others);
        let mut evicted: Vec<DiscoveryEndpoint> = Vec::new();
        let mut i: usize = 0;
        while i < previous.len()
            invariant
                prev == endpoint_views(previous@),
                cur == endpoint_views(current@),
                pred == no_longer_held(cur, others),
                no_duplicates(prev),
                i <= prev.len(),
                self@.owners == old(self)@.owners,
                unique_keys(self@.references),
                forall|k: int| 0 <= k < self@.references.len() ==> (#[trigger] self@.references[k]).1 > 0,
                forall|x: EndpointView| #[trigger] references_of(self@.references, x) as int == holders(others, x)
                    + (if prev.contains(x) { 1int } else { 0int })
                    - (if prev.take(i as int).contains(x) && !cur.contains(x) { 1int } else { 0int }),
                endpoint_views(evicted@) == keep(prev.take(i as int), pred),
            decreases prev.len() - i,
        {
            let ghost x0 = prev[i as int];
            proof {
                assert(prev.take(i + 1).drop_last() =~= prev.take(i as int));
                assert(!prev.take(i as int).contains(x0)) by {
                    if prev.take(i as int).contains(x0) {
                        let k = choose|k: int| 0 <= k < prev.take(i as int).len() && prev.take(i as int)[k] == x0;
                        assert(prev[k] == prev[i as int]);
                    }
                }
                assert(prev.contains(x0));
                assert forall|x: EndpointView| prev.take(i + 1).contains(x) <==> prev.take(i as int).contains(x) || x == x0 by {
                    Self::lemma_take_contains(prev, i as int, x);
                }
            }
            let kept = position(current, &previous[i]).is_some();
            if !kept {
                let ghost refs = self@.references;
                match self.find_reference(&previous[i]) {
                    Some(k) => {
                        proof {
                            lemma_lookup_at(refs, k as int);
                            assert(references_of(refs, x0) as int == holders(others, x0) + 1);
                        }
                        let count = self.references[k].1;
                        if count > 1 {
                            let key = self.references[k].0.duplicate();
                            self.references.set(k, (key, count - 1));
                            proof {
                                assert(self@.references =~= refs.update(k as int, (refs[k as int].0, (count - 1) as nat)));
                                assert forall|x: EndpointView| #[trigger] references_of(self@.references, x) as int
                                    == holders(others, x) + (if prev.contains(x) { 1int } else { 0int })
                                    - (if prev.take(i + 1).contains(x) && !cur.contains(x) { 1int } else { 0int }) by {
                                    lemma_lookup_update(refs, k as int, (count - 1) as nat, x);
                                    assert(references_of(refs, x) as int == holders(others, x)
                                        + (if prev.contains(x) { 1int } else { 0int })
                                        - (if prev.take(i as int).contains(x) && !cur.contains(x) { 1int } else { 0int }));
                                }
                                assert forall|a: int, b: int| 0 <= a < b < self@.references.len() implies
                                    #[trigger] self@.references[a].0 != #[trigger] self@.references[b].0 by {
                                    assert(self@.references[a].0 == refs[a].0);
                                    assert(self@.references[b].0 == refs[b].0);
                                }
                            }
                        } else {
                            let _ = self.references.remove(k);
                            let ghost before = endpoint_views(evicted@);
                            evicted.push(previous[i].duplicate());
                            proof {
                                assert(self@.references =~= refs.remove(k as int));
                                assert forall|x: EndpointView| #[trigger] references_of(self@.references, x) as int
                                    == holders(others, x) + (if prev.contains(x) { 1int } else { 0int })
                                    - (if prev.take(i + 1).contains(x) && !cur.contains(x) { 1int } else { 0int }) by {
                                    lemma_lookup_remove(refs, k as int, x);
                                    assert(references_of(refs, x) as int == holders(others, x)
                                        + (if prev.contains(x) { 1int } else { 0int })
                                        - (if prev.take(i as int).contains(x) && !cur.contains(x) { 1int } else { 0int }));
                                }
                                assert forall|a: int, b: int| 0 <= a < b < self@.references.len() implies
                                    #[trigger] self@.references[a].0 != #[trigger] self@.references[b].0 by {
                                    assert(self@.references[a] == refs[if a < k { a } else { a + 1 }]);
                                    assert(self@.references[b] == refs[if b < k { b } else { b + 1 }]);
                                }
                                assert(endpoint_views(evicted@) =~= before.push(x0));
                                assert(pred(x0));
                            }
                        }
                    },
                    None => {
                        proof {
                            lemma_lookup_absent(refs, x0);
                            assert(references_of(refs, x0) as int == holders(others, x0) + 1);
                        }
                    },
                }
            }
            i = i + 1;
        }
        assert(prev.take(prev.len() as int) =~= prev);
        evicted
    }

    /// Takes the memberships of `current` that `previous` did not hold.
    fn acquire_all(&mut self, current: &Vec<DiscoveryEndpoint>, previous: &Vec<DiscoveryEndpoint>,
        Ghost(others): Ghost<Seq<(ServiceSelectorView, Seq<EndpointView>)>>)
        requires
            unique_keys(old(self)@.references),
            forall|i: int| 0 <= i < old(self)@.references.len() ==> (#[trigger] old(self)@.references[i]).1 > 0,
            no_duplicates(endpoint_views(current@)),
            others.len() < usize::MAX,
            forall|x: EndpointView| #[trigger] references_of(old(self)@.references, x) == holders(others, x)
                + if endpoint_views(previous@).contains(x) && endpoint_views(current@).contains(x) { 1nat } else { 0nat },
        ensures
            final(self)@.owners == old(self)@.owners,
            unique_keys(final(self)@.references),
            forall|i: int| 0 <= i < final(self)@.references.len() ==> (#[trigger] final(self)@.references[i]).1 > 0,
            forall|x: EndpointView| #[trigger] references_of(final(self)@.references, x) == holders(others, x)
                + if endpoint_views(current@).contains(x) { 1nat } else { 0nat },
    {
        let ghost prev = endpoint_views(previous@);
        let ghost cur = endpoint_views(current@);
        let mut j: usize = 0;
        while j < current.len()
            invariant
                prev == endpoint_views(previous@),
                cur == endpoint_views(current@),
                no_duplicates(cur),
                others.len() < usize::MAX,
                j <= cur.len(),
                self@.owners == old(self)@.owners,
                unique_keys(self@.references),
                forall|k: int| 0 <= k < self@.references.len() ==> (#[trigger] self@.references[k]).1 > 0,
                forall|x: EndpointView| #[trigger] references_of(self@.references, x) as int == holders(others, x)
                    + (if prev.contains(x) && cur.contains(x) { 1int } else { 0int })
                    + (if cur.take(j as int).contains(x) && !prev.contains(x) { 1int } else { 0int }),
            decreases cur.len() - j,
        {
            let ghost x0 = cur[j as int];
            proof {
                assert(!cur.take(j as int).contains(x0)) by {
                    if cur.take(j as int).contains(x0) {
                        let k = choose|k: int| 0 <= k < cur.take(j as int).len() && cur.take(j as int)[k] == x0;
                        assert(cur[k] == cur[j as int]);
                    }
                }
                assert(cur.contains(x0));
                assert forall|x: EndpointView| cur.take(j + 1).contains(x) <==> cur.take(j as int).contains(x) || x == x0 by {
                    Self::lemma_take_contains(cur, j as int, x);
                }
                lemma_holders_le(others, x0);
            }
            let held_before = position(previous, &current[j]).is_some();
            if !held_before {
                let ghost refs = self@.references;
                proof {
                    assert(references_of(refs, x0) as int == holders(others, x0));
                }
                match self.find_reference(&current[j]) {
                    Some(k) => {
                        proof {
                            lemma_lookup_at(refs, k as int);
                        }
                        let count = self.references[k].1;
                        let key = self.references[k].0.duplicate();
                        self.references.set(k, (key, count + 1));
                        proof {
                            assert(self@.references =~= refs.update(k as int, (refs[k as int].0, (count + 1) as nat)));
                            assert forall|x: EndpointView| #[trigger] references_of(self@.references, x) as int
                                == holders(others, x) + (if prev.contains(x) && cur.contains(x) { 1int } else { 0int })
                                + (if cur.take(j + 1).contains(x) && !prev.contains(x) { 1int } else { 0int }) by {
                                lemma_lookup_update(refs, k as int, (count + 1) as nat, x);
                                assert(references_of(refs, x) as int == holders(others, x)
                                    + (if prev.contains(x) && cur.contains(x) { 1int } else { 0int })
                                    + (if cur.take(j as int).contains(x) && !prev.contains(x) { 1int } else { 0int }));
                            }
                            assert forall|a: int, b: int| 0 <= a < b < self@.references.len() implies
                                #[trigger] self@.references[a].0 != #[trigger] self@.references[b].0 by {
                                assert(self@.references[a].0 == refs[a].0);
                                assert(self@.references[b].0 == refs[b].0);
                            }
                        }
                    },
                    None => {
                        self.references.push((current[j].duplicate(), 1));
                        proof {
                            lemma_lookup_absent(refs, x0);
                            assert(self@.references =~= refs.push((x0, 1nat)));
                            assert forall|x: EndpointView| #[trigger] references_of(self@.references, x) as int
                                == holders(others, x) + (if prev.contains(x) && cur.contains(x) { 1int } else { 0int })
                                + (if cur.take(j + 1).contains(x) && !prev.contains(x) { 1int } else { 0int }) by {
                                assert(self@.references.drop_last() =~= refs);
                                assert(references_of(refs, x) as int == holders(others, x)
                                    + (if prev.contains(x) && cur.contains(x) { 1int } else { 0int })
                                    + (if cur.take(j as int).contains(x) && !prev.contains(x) { 1int } else { 0int }));
                            }
                            assert forall|a: int, b: int| 0 <= a < b < self@.references.len() implies
                                #[trigger] self@.references[a].0 != #[trigger] self@.references[b].0 by {
                                if b == refs.len() {
                                    assert(self@.references[a].0 == refs[a].0);
                                }
                            }
                        }
                    },
                }
            }
            j = j + 1;
        }
        assert(cur.take(cur.len() as int) =~= cur);
    }

    /// Replaces the endpoints held by `owner` with the distinct endpoints of
    /// `endpoints`, and returns the endpoints it held before that no owner holds any
    /// more.
    pub fn replace(&mut self, owner: ServiceSelector, endpoints: &Vec<DiscoveryEndpoint>) -> (evicted: Vec<DiscoveryEndpoint>)
        requires
            memberships_wf(old(self)@),
            old(self)@.owners.len() < usize::MAX,
        ensures
            memberships_wf(final(self)@),
            lookup(final(self)@.owners, owner@) matches Some(set) && no_duplicates(set)
                && forall|e: EndpointView| set.contains(e) <==> endpoint_views(endpoints@).contains(e),
            forall|o: ServiceSelectorView| o != owner@ ==> lookup(final(self)@.owners, o) == lookup(old(self)@.owners, o),
            endpoint_views(evicted@) == keep(held_by(old(self)@, owner@), unheld(final(self)@.owners)),
    {
        let current = deduplicate(endpoints);
        let ghost cur = endpoint_views(current@);
        let ghost old_owners = self@.owners;
        let previous: Vec<DiscoveryEndpoint> = match self.find_owner(&owner) {
            Some(i) => {
                let (_, set) = self.owners.remove(i);
                proof {
                    assert(self@.owners =~= old_owners.remove(i as int));
                    assert(endpoint_views(set@) == old_owners[i as int].1);
                    lemma_lookup_at(old_owners, i as int);
                    assert forall|x: EndpointView| #[trigger] holders(old_owners, x) == holders(self@.owners, x)
                        + if endpoint_views(set@).contains(x) { 1nat } else { 0nat } by {
                        lemma_holders_remove(old_owners, i as int, x);
                    }
                    assert forall|o: ServiceSelectorView| o != owner@ implies lookup(self@.owners, o)
                        == lookup(old_owners, o) by {
                        lemma_lookup_remove(old_owners, i as int, o);
                    }
                    lemma_lookup_absent(self@.owners, owner@);
                }
                set
            },
            None => {
                proof {
                    lemma_lookup_absent(old_owners, owner@);
                    assert(endpoint_views(Seq::<DiscoveryEndpoint>::empty()) =~= Seq::empty());
                }
                Vec::new()
            },
        };
        let ghost prev = endpoint_views(previous@);
        let ghost others = self@.owners;
        proof {
            assert(prev == held_by(old(self)@, owner@));
            assert forall|x: EndpointView| #[trigger] references_of(self@.references, x) == holders(others, x)
                + if prev.contains(x) { 1nat } else { 0nat } by {
                assert(references_of(self@.references, x) == holders(old_owners, x));
                assert(holders(old_owners, x) == holders(others, x) + if prev.contains(x) { 1nat } else { 0nat });
            }
        }
        let evicted = self.release_all(&previous, &current, Ghost(others));
        self.acquire_all(&current, &previous, Ghost(others));
        self.owners.push((owner, current));
        proof {
            let fin = self@.owners;
            assert(fin =~= others.push((owner@, cur)));
            assert(fin.drop_last() =~= others);
            assert forall|x: EndpointView| #[trigger] references_of(self@.references, x) == holders(fin, x) by {
                assert(fin.drop_last() =~= others);
            }
            assert(no_longer_held(cur, others) =~= unheld(fin)) by {
                assert forall|x: EndpointView| #[trigger] holders(fin, x) == holders(others, x)
                    + if cur.contains(x) { 1nat } else { 0nat } by {
                    assert(fin.drop_last() =~= others);
                }
            }
            assert forall|a: int, b: int| 0 <= a < b < fin.len() implies #[trigger] fin[a].0 != #[trigger] fin[b].0 by {
                if b == others.len() {
                    assert(lookup(others, owner@) is None);
                    if fin[a].0 == owner@ {
                        lemma_lookup_at(others, a);
                    }
                }
            }
            assert forall|a: int| 0 <= a < fin.len() implies no_duplicates(#[trigger] fin[a].1) by {
                if a < others.len() {
                    assert(fin[a] == others[a]);
                }
            }
        }
        evicted
    }

    /// Drops the endpoints held by `owner`, and returns those no owner holds any more.
    pub fn remove(&mut self, owner: &ServiceSelector) -> (evicted: Vec<DiscoveryEndpoint>)
        requires
            memberships_wf(old(self)@),
        ensures
            memberships_wf(final(self)@),
            lookup(final(self)@.owners, owner@) is None,
            forall|o: ServiceSelectorView| o != owner@ ==> lookup(final(self)@.owners, o) == lookup(old(self)@.owners, o),
            endpoint_views(evicted@) == keep(held_by(old(self)@, owner@), unheld(final(self)@.owners)),
    {
        let ghost old_owners = self@.owners;
        match self.find_owner(owner) {
            Some(i) => {
                let (_, previous) = self.owners.remove(i);
                let ghost prev = endpoint_views(previous@);
                let ghost others = self@.owners;
                let none: Vec<DiscoveryEndpoint> = Vec::new();
                proof {
                    assert(others =~= old_owners.remove(i as int));
                    assert(prev == old_owners[i as int].1);
                    lemma_lookup_at(old_owners, i as int);
                    assert forall|x: EndpointView| #[trigger] references_of(self@.references, x) == holders(others, x)
                        + if prev.contains(x) { 1nat } else { 0nat } by {
                        lemma_holders_remove(old_owners, i as int, x);
                        assert(references_of(self@.references, x) == holders(old_owners, x));
                    }
                    assert forall|o: ServiceSelectorView| o != owner@ implies lookup(others, o) == lookup(old_owners, o) by {
                        lemma_lookup_remove(old_owners, i as int, o);
                    }
                    lemma_lookup_remove(old_owners, i as int, owner@);
                    assert(endpoint_views(none@) =~= Seq::empty());
                }
                let evicted = self.release_all(&previous, &none, Ghost(others));
                proof {
                    assert(no_longer_held(endpoint_views(none@), others) =~= unheld(others));
                    assert forall|a: int, b: int| 0 <= a < b < others.len() implies
                        #[trigger] others[a].0 != #[trigger] others[b].0 by {
                        assert(others[a] == old_owners[if a < i { a } else { a + 1 }]);
                        assert(others[b] == old_owners[if b < i { b } else { b + 1 }]);
                    }
                    assert forall|a: int| 0 <= a < others.len() implies no_duplicates(#[trigger] others[a].1) by {
                        assert(others[a] == old_owners[if a < i { a } else { a + 1 }]);
                    }
                }
                evicted
            },
            None => {
                proof {
                    lemma_lookup_absent(old_owners, owner@);
                }
                let evicted: Vec<DiscoveryEndpoint> = Vec::new();
                proof {
                    assert(endpoint_views(evicted@) =~= Seq::empty());
                    assert(held_by(old(self)@, owner@) =~= Seq::empty());
                }
                evicted
            },
        }
    }
}

/// Whether no owner holds an endpoint.
pub open spec fn unheld(owners: Seq<(ServiceSelectorView, Seq<EndpointView>)>) -> spec_fn(EndpointView) -> bool {
    |x: EndpointView| holders(owners, x) == 0
}

/// Whether an endpoint the owner dropped is held by nobody: not kept in `current` and
/// held by none of `others`.
pub open spec fn no_longer_held(current: Seq<EndpointView>, others: Seq<(ServiceSelectorView, Seq<EndpointView>)>)
    -> spec_fn(EndpointView) -> bool {
    |x: EndpointView| !current.contains(x) && holders(others, x) == 0
}

/// An endpoint keeps a discovery breaker exactly while the latest snapshot of some
/// subscription holds it: its reference count is positive exactly then.
/// What a replacement or removal evicts: exactly the endpoints the owner held before
/// that no owner holds afterwards.
pub proof fn lemma_evicted(before: Seq<EndpointView>, after: Seq<(ServiceSelectorView, Seq<EndpointView>)>,
    e: EndpointView)
    ensures
        keep(before, unheld(after)).contains(e) <==> (before.contains(e) && forall|i: int| 0 <= i < after.len()
            ==> !(#[trigger] after[i]).1.contains(e)),
{
    lemma_holders_positive(after, e);
    crate::invocation::lemma_keep_sound(before, unheld(after));
    let k = keep(before, unheld(after));
    if k.contains(e) {
        let j = choose|j: int| 0 <= j < k.len() && k[j] == e;
        assert(unheld(after)(k[j]));
    }
    if before.contains(e) && holders(after, e) == 0 {
        let i = choose|i: int| 0 <= i < before.len() && before[i] == e;
        crate::invocation::lemma_keep_complete(before, unheld(after), i);
    }
}

/// An endpoint has a reference count exactly when some owner's snapshot holds it.
pub proof fn lemma_member_iff_held(v: MembershipsView, e: EndpointView)
    requires
        memberships_wf(v),
    ensures
        references_of(v.references, e) > 0 <==> exists|i: int| 0 <= i < v.owners.len() && (#[trigger] v.owners[i]).1.contains(e),
{
    lemma_holders_positive(v.owners, e);
}

/// Separates explicitly configured endpoints from registry-owned discovery membership.
#[derive(Clone, Copy, Debug, PartialEq, Eq, Hash, Structural)]
pub enum EndpointBreakerSource {
    /// An endpoint the client was configured with.
    Direct,
    /// An endpoint a discovery snapshot reported.
    Discovery,
}

impl Memberships {
    /// Whether a breaker for `e` from `source` is kept in the shared cache: direct
    /// endpoints always are, discovery endpoints only while some owner holds them
    /// (otherwise the breaker is used once and not kept).
    pub fn tracks_breaker(&self, source: EndpointBreakerSource, e: &DiscoveryEndpoint) -> (kept: bool)
        requires
            memberships_wf(self@),
        ensures
            kept == (source == EndpointBreakerSource::Direct || is_member_spec(self@, e@)),
    {
        match source {
            EndpointBreakerSource::Direct => true,
            EndpointBreakerSource::Discovery => self.is_member(e),
        }
    }
}

/// Whether a cached breaker survives an eviction: direct breakers always do, discovery
/// breakers unless their endpoint was evicted.
pub fn keeps_cached(source: EndpointBreakerSource, e: &DiscoveryEndpoint, evicted: &Vec<DiscoveryEndpoint>) -> (keep: bool)
    ensures
        keep == (source != EndpointBreakerSource::Discovery || !endpoint_views(evicted@).contains(e@)),
{
    match source {
        EndpointBreakerSource::Direct => true,
        EndpointBreakerSource::Discovery => position(evicted, e).is_none(),
    }
}

} // verus!
