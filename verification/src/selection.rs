use crate::attempt::{BalancerOutcome, Selection, complete_selection, routable_snapshot, spec_selected_version};
use crate::call::{circuit_open_view, eligible_endpoints, granted_indices};
use crate::contract::{HttpBindingId, HttpVersionPolicy, ServiceInstance, ServiceInstanceView, is_secure_endpoint};
use crate::directory::DirectoryState;
use crate::error::{Error, ErrorCategory, ErrorKind, ErrorView, fresh_error};
use crate::invocation::{
    count_of, instance_views, is_compatible, is_sub_multiset, keep, lemma_keep_satisfies, no_compatible_endpoint_view,
    no_instances, router_panic, select_candidates, candidates_spec, spec_select_http_version, validate_router_output,
};
use vstd::prelude::*;

verus! {

/// Where the endpoint selection of one attempt stands.
#[derive(Clone, Copy, Debug, PartialEq, Eq, Structural)]
pub enum SelectPhase {
    /// Running the configured routers, in order.
    Routing,
    /// Trying the endpoint breakers of the routed instances.
    Breakers,
    /// Asking the load balancer among the eligible instances.
    Balancing,
    /// Finished.
    Done,
}

/// Where an attempt's instances come from.
pub enum SelectionSource {
    /// The client's direct endpoint, as its single candidate.
    Direct(ServiceInstance),
    /// The discovery directory: its state and its instances.
    Discovery(DirectoryState, Vec<ServiceInstance>),
}

/// How a router answered.
pub enum RouterAnswer {
    /// It returned these instances.
    Routed(Vec<ServiceInstance>),
    /// It failed with this error.
    Failed(Error),
    /// It panicked.
    Panicked,
}

/// The outside work the selection waits on next.
pub enum SelectNext {
    /// Run the router at this position on the current instances.
    Route(usize),
    /// Try the endpoint breaker of each current instance, in order.
    TryBreakers(usize),
    /// Ask the load balancer among this many eligible instances.
    Balance(usize),
    /// The selection ends with this endpoint or this error.
    Finish(Result<Selection, Error>),
}

/// Whether `policy` picks an HTTP version for the instance.
pub open spec fn selectable(policy: HttpVersionPolicy, v: ServiceInstanceView) -> bool {
    spec_select_http_version(policy, is_secure_endpoint(v.endpoint), v.capabilities.http1_1, v.capabilities.http2)
        is Some
}

/// The abstract state of a selection.
pub struct EndpointSelectionView {
    pub phase: SelectPhase,
    pub policy: HttpVersionPolicy,
    pub current: Seq<ServiceInstanceView>,
    pub routers: nat,
    pub next_router: nat,
}

/// The selection invariant: every current instance has a version under the policy,
/// and routers run in their configured order.
pub open spec fn selection_wf(v: EndpointSelectionView) -> bool {
    &&& forall|i: int| 0 <= i < v.current.len() ==> selectable(v.policy, #[trigger] v.current[i])
    &&& v.next_router <= v.routers
    &&& v.phase == SelectPhase::Routing ==> v.next_router < v.routers
    &&& (v.phase == SelectPhase::Breakers || v.phase == SelectPhase::Balancing) ==> v.next_router == v.routers
        && v.current.len() > 0
}

/// The view of the error of a selection without instances.
pub open spec fn no_instances_view() -> ErrorView {
    fresh_error(ErrorKind::Framework, ErrorCategory::Unavailable, "no_instances"@,
        "discovery has no currently routable service instances"@, 503)
}

/// The view of the error of a router that panicked.
pub open spec fn router_panic_view() -> ErrorView {
    fresh_error(ErrorKind::Framework, ErrorCategory::Internal, "router_panic"@, "router failed"@, 500)
}

/// The view of the error of a router that returned what it was not given.
pub open spec fn invalid_router_output_view() -> ErrorView {
    fresh_error(ErrorKind::Framework, ErrorCategory::Internal, "invalid_router_output"@,
        "instance router must return a non-duplicated subset of its input snapshot"@, 500)
}

/// Whether `next` ends the selection with an error whose view is `e`.
pub open spec fn fails_with(next: SelectNext, e: ErrorView) -> bool {
    next matches SelectNext::Finish(r) && r matches Err(x) && x@ == e
}

/// What follows once the routers up to `next_router` have run: the next router, or,
/// after the last one, the breakers unless no instance is left.
pub open spec fn after_routing(v: EndpointSelectionView, next: SelectNext, result: EndpointSelectionView) -> bool {
    if v.next_router < v.routers {
        next == SelectNext::Route(v.next_router as usize) && result == (EndpointSelectionView {
            phase: SelectPhase::Routing,
            ..v
        })
    } else if v.current.len() == 0 {
        fails_with(next, no_instances_view()) && result == (EndpointSelectionView { phase: SelectPhase::Done, ..v })
    } else {
        next == SelectNext::TryBreakers(v.current.len() as usize) && result == (EndpointSelectionView {
            phase: SelectPhase::Breakers,
            ..v
        })
    }
}

proof fn lemma_count_positive_contains<A>(s: Seq<A>, x: A)
    requires
        count_of(s, x) > 0,
    ensures
        s.contains(x),
    decreases s.len(),
{
    if s.len() > 0 && s.last() != x {
        lemma_count_positive_contains(s.drop_last(), x);
        let k = choose|k: int| 0 <= k < s.drop_last().len() && s.drop_last()[k] == x;
        assert(s[k] == x);
    }
}

proof fn lemma_contains_count_positive<A>(s: Seq<A>, i: int)
    requires
        0 <= i < s.len(),
    ensures
        count_of(s, s[i]) > 0,
    decreases s.len(),
{
    if i < s.len() - 1 {
        lemma_contains_count_positive(s.drop_last(), i);
        assert(s.drop_last()[i] == s[i]);
    }
}

/// What a sub-multiset holds, its source holds too.
proof fn lemma_sub_multiset_members<A>(output: Seq<A>, input: Seq<A>, i: int)
    requires
        is_sub_multiset(output, input),
        0 <= i < output.len(),
    ensures
        input.contains(output[i]),
{
    lemma_contains_count_positive(output, i);
    assert(count_of(output, output[i]) <= count_of(input, output[i]));
    lemma_count_positive_contains(input, output[i]);
}

/// The endpoint selection of one attempt, in the order the runtime performs it: a
/// discovery directory must be routable and non-empty; the instances narrow to the
/// compatible candidates; every router runs in order and each output is validated
/// against its input; routing to nothing gives `no_instances`; instances whose
/// endpoint breaker refuses drop out, and all refusing gives `circuit_open`; the load
/// balancer then picks among the eligible ones.
pub struct EndpointSelection {
    phase: SelectPhase,
    policy: HttpVersionPolicy,
    current: Vec<ServiceInstance>,
    routers: usize,
    next_router: usize,
}

impl View for EndpointSelection {
    type V = EndpointSelectionView;

    closed spec fn view(&self) -> EndpointSelectionView {
        EndpointSelectionView {
            phase: self.phase,
            policy: self.policy,
            current: instance_views(self.current@),
            routers: self.routers as nat,
            next_router: self.next_router as nat,
        }
    }
}

impl EndpointSelection {
    fn proceed(&mut self) -> (next: SelectNext)
        requires
            forall|i: int| 0 <= i < old(self)@.current.len() ==> selectable(old(self)@.policy, #[trigger] old(self)@.current[i]),
            old(self)@.next_router <= old(self)@.routers,
        ensures
            after_routing(old(self)@, next, final(self)@),
            selection_wf(final(self)@),
    {
        if self.next_router < self.routers {
            self.phase = SelectPhase::Routing;
            SelectNext::Route(self.next_router)
        } else if self.current.len() == 0 {
            self.phase = SelectPhase::Done;
            SelectNext::Finish(Err(no_instances()))
        } else {
            self.phase = SelectPhase::Breakers;
            SelectNext::TryBreakers(self.current.len())
        }
    }

    /// Starts a selection with `routers` configured routers.
    pub fn start(source: SelectionSource, binding: &HttpBindingId, policy: HttpVersionPolicy, attempted: &Vec<String>,
        routers: usize) -> (result: (EndpointSelection, SelectNext))
        ensures
            selection_wf(result.0@),
            result.0@.policy == policy,
            result.0@.routers == routers,
            ({
                let instances = match source {
                    SelectionSource::Direct(i) => seq![i@],
                    SelectionSource::Discovery(_, list) => instance_views(list@),
                };
                let unroutable = match source {
                    SelectionSource::Direct(_) => false,
                    SelectionSource::Discovery(state, list) => !(state.spec_is_routable() && list@.len() > 0),
                };
                let compatible = keep(instances, is_compatible(binding@, policy));
                if unroutable {
                    fails_with(result.1, no_instances_view()) && result.0@.phase == SelectPhase::Done
                } else if compatible.len() == 0 {
                    fails_with(result.1, no_compatible_endpoint_view()) && result.0@.phase == SelectPhase::Done
                } else {
                    after_routing(EndpointSelectionView {
                        phase: SelectPhase::Routing,
                        policy,
                        current: candidates_spec(instances, binding@, policy, attempted@.map_values(|s: String| s@)),
                        routers: routers as nat,
                        next_router: 0,
                    }, result.1, result.0@)
                }
            }),
    {
        let instances: Vec<ServiceInstance> = match source {
            SelectionSource::Direct(instance) => {
                let mut list = Vec::new();
                list.push(instance);
                assert(instance_views(list@) =~= seq![list@[0]@]);
                list
            },
            SelectionSource::Discovery(state, list) => {
                match routable_snapshot(state, list.len()) {
                    Err(error) => {
                        let done = EndpointSelection {
                            phase: SelectPhase::Done,
                            policy,
                            current: Vec::new(),
                            routers,
                            next_router: routers,
                        };
                        assert(instance_views(done.current@) =~= Seq::empty());
                        return (done, SelectNext::Finish(Err(error)));
                    },
                    Ok(()) => list,
                }
            },
        };
        let ghost views = instance_views(instances@);
        match select_candidates(&instances, binding, policy, attempted) {
            Err(error) => {
                let done = EndpointSelection {
                    phase: SelectPhase::Done,
                    policy,
                    current: Vec::new(),
                    routers,
                    next_router: routers,
                };
                assert(instance_views(done.current@) =~= Seq::empty());
                (done, SelectNext::Finish(Err(error)))
            },
            Ok(candidates) => {
                proof {
                    let compatible = keep(views, is_compatible(binding@, policy));
                    let untried = keep(compatible, crate::invocation::is_untried(attempted@.map_values(|s: String| s@)));
                    lemma_keep_satisfies(views, is_compatible(binding@, policy));
                    lemma_keep_satisfies(compatible, crate::invocation::is_untried(attempted@.map_values(|s: String| s@)));
                    crate::invocation::lemma_keep_subset(compatible, crate::invocation::is_untried(
                        attempted@.map_values(|s: String| s@)));
                    let c = instance_views(candidates@);
                    assert forall|i: int| 0 <= i < c.len() implies selectable(policy, #[trigger] c[i]) by {
                        if untried.len() > 0 {
                            assert(compatible.contains(untried[i]));
                            let k = choose|k: int| 0 <= k < compatible.len() && compatible[k] == untried[i];
                            assert(is_compatible(binding@, policy)(compatible[k]));
                        } else {
                            assert(is_compatible(binding@, policy)(compatible[i]));
                        }
                    }
                }
                let mut selection = EndpointSelection {
                    phase: SelectPhase::Routing,
                    policy,
                    current: candidates,
                    routers,
                    next_router: 0,
                };
                let next = selection.proceed();
                (selection, next)
            },
        }
    }

    /// Returns the phase.
    pub fn phase(&self) -> (phase: SelectPhase)
        ensures
            phase == self@.phase,
    {
        self.phase
    }

    /// Returns the current instances, which the next router or the breakers receive.
    pub fn current(&self) -> (current: &Vec<ServiceInstance>)
        ensures
            instance_views(current@) == self@.current,
    {
        &self.current
    }

    /// Handles a router's answer: a failure or a panic ends the selection; an output
    /// that is not a sub-multiset of its input ends it as an invalid router output;
    /// otherwise the output becomes the current instances.
    pub fn routed(&mut self, answer: RouterAnswer) -> (next: SelectNext)
        requires
            old(self)@.phase == SelectPhase::Routing,
            selection_wf(old(self)@),
        ensures
            selection_wf(final(self)@),
            final(self)@.policy == old(self)@.policy,
            final(self)@.routers == old(self)@.routers,
            match answer {
                RouterAnswer::Failed(e) => next == SelectNext::Finish(Err(e))
                    && final(self)@.phase == SelectPhase::Done,
                RouterAnswer::Panicked => fails_with(next, router_panic_view())
                    && final(self)@.phase == SelectPhase::Done,
                RouterAnswer::Routed(output) => if is_sub_multiset(instance_views(output@), old(self)@.current) {
                    after_routing(EndpointSelectionView {
                        current: instance_views(output@),
                        next_router: old(self)@.next_router + 1,
                        ..old(self)@
                    }, next, final(self)@)
                } else {
                    fails_with(next, invalid_router_output_view()) && final(self)@.phase == SelectPhase::Done
                },
            },
    {
        match answer {
            RouterAnswer::Failed(error) => {
                self.phase = SelectPhase::Done;
                assert(self@.current == old(self)@.current);
                SelectNext::Finish(Err(error))
            },
            RouterAnswer::Panicked => {
                self.phase = SelectPhase::Done;
                assert(self@.current == old(self)@.current);
                SelectNext::Finish(Err(router_panic()))
            },
            RouterAnswer::Routed(output) => {
                match validate_router_output(&self.current, &output) {
                    Err(error) => {
                        self.phase = SelectPhase::Done;
                assert(self@.current == old(self)@.current);
                        SelectNext::Finish(Err(error))
                    },
                    Ok(()) => {
                        proof {
                            let inp = instance_views(self.current@);
                            let out = instance_views(output@);
                            assert(inp == old(self)@.current);
                            assert forall|i: int| 0 <= i < out.len() implies selectable(old(self)@.policy, #[trigger] out[i]) by {
                                lemma_sub_multiset_members(out, inp, i);
                                let k = choose|k: int| 0 <= k < inp.len() && inp[k] == out[i];
                                assert(selectable(old(self)@.policy, old(self)@.current[k]));
                            }
                        }
                        self.current = output;
                        self.next_router = self.next_router + 1;
                        self.proceed()
                    },
                }
            },
        }
    }

    /// Handles the endpoint breakers: `granted[i]` tells whether the breaker of the
    /// `i`-th current instance granted a permit. The eligible instances are those,
    /// in order; when every breaker refused, the selection ends with `circuit_open`.
    pub fn breakers(&mut self, granted: &Vec<bool>) -> (next: SelectNext)
        requires
            old(self)@.phase == SelectPhase::Breakers,
            selection_wf(old(self)@),
            granted@.len() == old(self)@.current.len(),
        ensures
            selection_wf(final(self)@),
            final(self)@.policy == old(self)@.policy,
            granted_indices(granted@).len() == 0 ==> fails_with(next, circuit_open_view())
                && final(self)@.phase == SelectPhase::Done,
            granted_indices(granted@).len() > 0 ==> next == SelectNext::Balance(granted_indices(granted@).len() as usize)
                && final(self)@.phase == SelectPhase::Balancing
                && final(self)@.current == granted_indices(granted@).map_values(|i: usize| old(self)@.current[i as int]),
    {
        match eligible_endpoints(granted) {
            Err(error) => {
                self.phase = SelectPhase::Done;
                SelectNext::Finish(Err(error))
            },
            Ok(indices) => {
                proof {
                    crate::call::lemma_granted_indices_bounded(granted@);
                }
                let ghost before = instance_views(self.current@);
                let mut eligible: Vec<ServiceInstance> = Vec::new();
                let mut k: usize = 0;
                while k < indices.len()
                    invariant
                        k <= indices@.len(),
                        indices@ == granted_indices(granted@),
                        forall|j: int| 0 <= j < indices@.len() ==> (#[trigger] indices@[j]) < before.len(),
                        before == instance_views(self.current@),
                        before.len() == granted@.len(),
                        instance_views(eligible@) == indices@.take(k as int).map_values(|i: usize| before[i as int]),
                    decreases indices@.len() - k,
                {
                    let i = indices[k];
                    let ghost prefix = instance_views(eligible@);
                    let copy = self.current[i].duplicate();
                    assert(copy@ == before[i as int]);
                    eligible.push(copy);
                    assert(indices@.take(k + 1) =~= indices@.take(k as int).push(i));
                    assert(instance_views(eligible@) =~= prefix.push(before[i as int]));
                    assert(indices@.take(k + 1).map_values(|i: usize| before[i as int])
                        =~= indices@.take(k as int).map_values(|i: usize| before[i as int]).push(before[i as int]));
                    k = k + 1;
                }
                assert(indices@.take(indices@.len() as int) =~= indices@);
                proof {
                    let e = instance_views(eligible@);
                    assert forall|j: int| 0 <= j < e.len() implies selectable(self@.policy, #[trigger] e[j]) by {
                        assert(e[j] == before[indices@[j] as int]);
                    }
                }
                let count = eligible.len();
                self.current = eligible;
                self.phase = SelectPhase::Balancing;
                SelectNext::Balance(count)
            },
        }
    }

    /// Completes the selection with the load balancer's answer among the eligible
    /// instances (see `complete_selection`).
    pub fn balanced(&mut self, outcome: BalancerOutcome) -> (next: SelectNext)
        requires
            old(self)@.phase == SelectPhase::Balancing,
            selection_wf(old(self)@),
        ensures
            final(self)@ == (EndpointSelectionView { phase: SelectPhase::Done, ..old(self)@ }),
            selection_wf(final(self)@),
            match outcome {
                BalancerOutcome::Selected(index) => if index < old(self)@.current.len() {
                    next matches SelectNext::Finish(r) && r matches Ok(s) && s.index == index
                        && s.instance@ == old(self)@.current[index as int]
                        && s.http_version == spec_selected_version(s.instance@, old(self)@.policy)
                        && s.invocation_controls == s.instance@.capabilities.invocation_controls
                } else {
                    fails_with(next, fresh_error(ErrorKind::Framework, ErrorCategory::Internal,
                        "invalid_load_balancer_selection"@, "load balancer returned an out-of-range index"@, 500))
                },
                BalancerOutcome::Failed(error) => next == SelectNext::Finish(Err(error)),
                BalancerOutcome::Panicked => fails_with(next, fresh_error(ErrorKind::Framework, ErrorCategory::Internal,
                    "load_balancer_panic"@, "load balancer failed"@, 500)),
            },
    {
        proof {
            let c = self@.current;
            assert forall|i: int| 0 <= i < self.current@.len() implies spec_select_http_version(
                self.policy,
                is_secure_endpoint(#[trigger] self.current@[i]@.endpoint),
                self.current@[i]@.capabilities.http1_1,
                self.current@[i]@.capabilities.http2,
            ) is Some by {
                assert(c[i] == self.current@[i]@);
            }
        }
        let result = complete_selection(&self.current, outcome, self.policy);
        self.phase = SelectPhase::Done;
        SelectNext::Finish(result)
    }
}

} // verus!
