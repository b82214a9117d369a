//! Pods as the forwarder sees them: what it reads of a pod to decide whether
//! the pod may receive traffic and which of its ports a connection goes to.

use crate::cli::ControlArgs;
use crate::errors::{MyError, MyErrorView};
use crate::session::{
    initial, ConnectionEvent, ConnectionFailure, ConnectionSession, ConnectionState, SessionView,
};
use crate::text::{first_named, lemma_first_named, lemma_first_named_is, str_eq};
use rand::Rng;
use vstd::prelude::*;
use vstd::seq_lib::lemma_flatten_concat;

verus! {

/// A target port as a forward names it: a number, or the name of a port that
/// the pod declares.
#[derive(Clone, Debug, PartialEq, Eq)]
pub enum PortSpec {
    Number(i32),
    Name(String),
}

/// The mathematical value of a [`PortSpec`].
pub enum PortSpecView {
    Number(i32),
    Name(Seq<char>),
}

impl View for PortSpec {
    type V = PortSpecView;

    open spec fn view(&self) -> PortSpecView {
        match self {
            PortSpec::Number(n) => PortSpecView::Number(*n),
            PortSpec::Name(s) => PortSpecView::Name(s@),
        }
    }
}

impl DeepView for PortSpec {
    type V = PortSpecView;

    open spec fn deep_view(&self) -> PortSpecView {
        self.view()
    }
}

/// One status condition of a pod, such as `Ready` with status `True`.
#[derive(Clone, Debug, PartialEq, Eq)]
pub struct PodCondition {
    pub type_: String,
    pub status: String,
}

/// The mathematical value of a [`PodCondition`].
pub struct PodConditionView {
    pub type_: Seq<char>,
    pub status: Seq<char>,
}

impl View for PodCondition {
    type V = PodConditionView;

    open spec fn view(&self) -> PodConditionView {
        PodConditionView { type_: self.type_@, status: self.status@ }
    }
}

impl DeepView for PodCondition {
    type V = PodConditionView;

    open spec fn deep_view(&self) -> PodConditionView {
        self.view()
    }
}

/// The part of a pod's status that readiness is derived from.
#[derive(Clone, Debug, PartialEq, Eq)]
pub struct PodStatus {
    pub conditions: Option<Vec<PodCondition>>,
}

/// The mathematical value of a [`PodStatus`].
pub struct PodStatusView {
    pub conditions: Option<Seq<PodConditionView>>,
}

impl View for PodStatus {
    type V = PodStatusView;

    open spec fn view(&self) -> PodStatusView {
        PodStatusView { conditions: self.conditions.deep_view() }
    }
}

impl DeepView for PodStatus {
    type V = PodStatusView;

    open spec fn deep_view(&self) -> PodStatusView {
        self.view()
    }
}

/// A port that a container declares.
#[derive(Clone, Debug, PartialEq, Eq)]
pub struct ContainerPort {
    pub name: Option<String>,
    pub container_port: i32,
}

/// The mathematical value of a [`ContainerPort`].
pub struct ContainerPortView {
    pub name: Option<Seq<char>>,
    pub container_port: i32,
}

impl View for ContainerPort {
    type V = ContainerPortView;

    open spec fn view(&self) -> ContainerPortView {
        ContainerPortView { name: self.name.deep_view(), container_port: self.container_port }
    }
}

impl DeepView for ContainerPort {
    type V = ContainerPortView;

    open spec fn deep_view(&self) -> ContainerPortView {
        self.view()
    }
}

/// A container of a pod, reduced to the ports it declares.
#[derive(Clone, Debug, PartialEq, Eq)]
pub struct Container {
    pub ports: Option<Vec<ContainerPort>>,
}

/// The mathematical value of a [`Container`].
pub struct ContainerView {
    pub ports: Option<Seq<ContainerPortView>>,
}

impl View for Container {
    type V = ContainerView;

    open spec fn view(&self) -> ContainerView {
        ContainerView { ports: self.ports.deep_view() }
    }
}

impl DeepView for Container {
    type V = ContainerView;

    open spec fn deep_view(&self) -> ContainerView {
        self.view()
    }
}

/// The part of a pod's specification that port resolution reads.
#[derive(Clone, Debug, PartialEq, Eq)]
pub struct PodSpec {
    pub containers: Vec<Container>,
}

/// The mathematical value of a [`PodSpec`].
pub struct PodSpecView {
    pub containers: Seq<ContainerView>,
}

impl View for PodSpec {
    type V = PodSpecView;

    open spec fn view(&self) -> PodSpecView {
        PodSpecView { containers: self.containers.deep_view() }
    }
}

impl DeepView for PodSpec {
    type V = PodSpecView;

    open spec fn deep_view(&self) -> PodSpecView {
        self.view()
    }
}

/// A pod that a selector matched: a candidate target for one connection.
///
/// Candidates are listed afresh for every connection; nothing here is kept
/// from one connection to the next.
#[derive(Clone, Debug, PartialEq, Eq)]
pub struct PodCandidate {
    pub name: Option<String>,
    pub status: Option<PodStatus>,
    pub spec: Option<PodSpec>,
}

/// The mathematical value of a [`PodCandidate`].
pub struct PodView {
    pub name: Option<Seq<char>>,
    pub status: Option<PodStatusView>,
    pub spec: Option<PodSpecView>,
}

impl View for PodCandidate {
    type V = PodView;

    open spec fn view(&self) -> PodView {
        PodView {
            name: self.name.deep_view(),
            status: self.status.deep_view(),
            spec: self.spec.deep_view(),
        }
    }
}

impl DeepView for PodCandidate {
    type V = PodView;

    open spec fn deep_view(&self) -> PodView {
        self.view()
    }
}

/// Whether a condition says that its pod is ready: type `Ready`, status
/// `True`.
pub open spec fn condition_ready(condition: PodConditionView) -> bool {
    condition.type_ == "Ready"@ && condition.status == "True"@
}

/// Whether a pod may receive traffic: its status reports a condition `Ready`
/// with status `True`. A pod without status, or without conditions, is not
/// ready.
pub open spec fn is_ready(pod: PodView) -> bool {
    match pod.status {
        Some(status) => match status.conditions {
            Some(conditions) => exists|i: int|
                0 <= i < conditions.len() && condition_ready(#[trigger] conditions[i]),
            None => false,
        },
        None => false,
    }
}

/// Whether a pod may be chosen: every pod where readiness is ignored, and
/// else the ready ones.
pub open spec fn eligible(pod: PodView, ignore_readiness: bool) -> bool {
    ignore_readiness || is_ready(pod)
}

/// [`eligible`] as a predicate on pods.
pub open spec fn eligibility(ignore_readiness: bool) -> spec_fn(PodView) -> bool {
    |pod: PodView| eligible(pod, ignore_readiness)
}

/// The pods that may be chosen, in the order in which they were listed.
pub open spec fn candidates(items: Seq<PodView>, ignore_readiness: bool) -> Seq<PodView> {
    items.filter(eligibility(ignore_readiness))
}

/// Tells whether a pod is ready.
pub fn pod_is_ready(pod: &PodCandidate) -> (ready: bool)
    ensures
        ready == is_ready(pod@),
{
    match &pod.status {
        None => false,
        Some(status) => match &status.conditions {
            None => false,
            Some(conditions) => {
                let mut i: usize = 0;
                while i < conditions.len()
                    invariant
                        i <= conditions.len(),
                        pod@.status == Some(status@),
                        status@.conditions == Some(conditions.deep_view()),
                        forall|j: int|
                            0 <= j < i ==> !condition_ready(#[trigger] conditions.deep_view()[j]),
                    decreases conditions.len() - i,
                {
                    let condition = &conditions[i];
                    proof {
                        assert(conditions.deep_view()[i as int] == condition@);
                    }
                    if str_eq(condition.type_.as_str(), "Ready") && str_eq(
                        condition.status.as_str(),
                        "True",
                    ) {
                        proof {
                            let listed = pod@.status->0.conditions->0;
                            assert(condition_ready(listed[i as int]));
                        }
                        return true;
                    }
                    i += 1;
                }
                false
            },
        },
    }
}

/// Picks the pod at place `index` among those that may be chosen.
///
/// With readiness ignored every listed pod may be chosen; otherwise only the
/// ready ones. Fails with `MatchingReadyPodNotFound` where fewer than
/// `index + 1` pods may be chosen; there is no fallback to a pod that is not
/// ready.
pub fn select_pod<'a>(items: &'a Vec<PodCandidate>, ignore_readiness: bool, index: usize) -> (result:
    Result<&'a PodCandidate, MyError>)
    ensures
        match result {
            Ok(pod) => {
                &&& index < candidates(items.deep_view(), ignore_readiness).len()
                &&& pod@ == candidates(items.deep_view(), ignore_readiness)[index as int]
                &&& exists|i: int| 0 <= i < items.len() && *pod == #[trigger] items[i]
            },
            Err(e) => {
                &&& index >= candidates(items.deep_view(), ignore_readiness).len()
                &&& e@ == MyErrorView::MatchingReadyPodNotFound()
            },
        },
{
    let ghost all = items.deep_view();
    let ghost pred = eligibility(ignore_readiness);
    let mut seen: usize = 0;
    let mut i: usize = 0;
    proof {
        assert(all.take(0) =~= Seq::<PodView>::empty());
        assert(all.take(0).filter(pred).len() == 0) by {
            all.take(0).lemma_filter_len(pred);
        }
    }
    while i < items.len()
        invariant
            i <= items.len(),
            all == items.deep_view(),
            pred == eligibility(ignore_readiness),
            seen == all.take(i as int).filter(pred).len(),
            seen <= index,
        decreases items.len() - i,
    {
        let pod = &items[i];
        let ghost head = all.take(i as int);
        proof {
            assert(all.take(i as int + 1) =~= head.push(pod@));
            head.lemma_filter_push(pod@, pred);
        }
        if ignore_readiness || pod_is_ready(pod) {
            if seen == index {
                proof {
                    let upto = all.take(i as int + 1);
                    let rest = all.skip(i as int + 1);
                    assert(all =~= upto + rest);
                    Seq::filter_distributes_over_add(upto, rest, pred);
                    assert(upto.filter(pred)[index as int] == pod@);
                    assert(all.filter(pred)[index as int] == pod@);
                    assert(*pod == items[i as int]);
                }
                return Ok(pod);
            }
            seen += 1;
        }
        i += 1;
    }
    proof {
        assert(all.take(i as int) =~= all);
    }
    Err(MyError::MatchingReadyPodNotFound())
}

/// `rand::rng().random_range(0..length)`: an index drawn from the thread's
/// random generator. Whatever is drawn lies below `length`; an empty range,
/// for which `rand` panics, is excluded.
#[verifier::external_body]
fn random_index(length: usize) -> (index: usize)
    requires
        length > 0,
    ensures
        index < length,
{
    rand::rng().random_range(0..length)
}

/// Where every pod may be chosen, the candidates are the pods listed.
pub proof fn lemma_candidates_all(items: Seq<PodView>, ignore_readiness: bool)
    requires
        forall|i: int| 0 <= i < items.len() ==> eligible(#[trigger] items[i], ignore_readiness),
    ensures
        candidates(items, ignore_readiness) == items,
    decreases items.len(),
{
    let pred = eligibility(ignore_readiness);
    if items.len() == 0 {
        items.lemma_filter_len(pred);
        assert(items.filter(pred) =~= items);
    } else {
        let head = items.drop_last();
        assert forall|i: int| 0 <= i < head.len() implies eligible(
            #[trigger] head[i],
            ignore_readiness,
        ) by {
            assert(head[i] == items[i]);
        }
        lemma_candidates_all(head, ignore_readiness);
        head.lemma_filter_push(items.last(), pred);
        assert(head.push(items.last()) =~= items);
    }
}

/// Where no pod may be chosen, there are no candidates.
pub proof fn lemma_candidates_none(items: Seq<PodView>, ignore_readiness: bool)
    requires
        forall|i: int| 0 <= i < items.len() ==> !eligible(#[trigger] items[i], ignore_readiness),
    ensures
        candidates(items, ignore_readiness).len() == 0,
    decreases items.len(),
{
    let pred = eligibility(ignore_readiness);
    if items.len() == 0 {
        items.lemma_filter_len(pred);
    } else {
        let head = items.drop_last();
        assert forall|i: int| 0 <= i < head.len() implies !eligible(
            #[trigger] head[i],
            ignore_readiness,
        ) by {
            assert(head[i] == items[i]);
        }
        lemma_candidates_none(head, ignore_readiness);
        head.lemma_filter_push(items.last(), pred);
        assert(head.push(items.last()) =~= items);
    }
}

/// Whether `pod` is one that the choice among `items` may fall on: the
/// first pod that may be chosen, or, with `randomise`, any of them.
pub open spec fn may_choose(
    items: Seq<PodView>,
    ignore_readiness: bool,
    randomise: bool,
    pod: PodView,
) -> bool {
    exists|index: int|
        0 <= index < candidates(items, ignore_readiness).len() && (!randomise ==> index == 0)
            && pod == #[trigger] candidates(items, ignore_readiness)[index]
}

/// Whether the choice among `items` may fail: always when no pod may be
/// chosen, and with `randomise` also when a pod was listed that may not,
/// since the index is drawn below the number of pods listed.
pub open spec fn may_fail(items: Seq<PodView>, ignore_readiness: bool, randomise: bool) -> bool {
    if randomise {
        candidates(items, ignore_readiness).len() < items.len() || items.len() == 0
    } else {
        candidates(items, ignore_readiness).len() == 0
    }
}

/// Chooses the pod that one connection is forwarded to.
///
/// Without `randomise` this is the first pod that may be chosen. With it,
/// an index is drawn below the number of pods listed, ready or not, and the
/// pod at that place among those that may be chosen is taken; so the choice
/// can fail although a ready pod exists, when pods that are not ready were
/// listed as well. An empty listing fails without a draw.
pub fn find_pod<'a>(items: &'a Vec<PodCandidate>, ignore_readiness: bool, randomise: bool) -> (result:
    Result<&'a PodCandidate, MyError>)
    ensures
        match result {
            Ok(pod) => {
                &&& eligible(pod@, ignore_readiness)
                &&& may_choose(items.deep_view(), ignore_readiness, randomise, pod@)
                &&& exists|i: int| 0 <= i < items.len() && *pod == #[trigger] items[i]
            },
            Err(e) => {
                &&& e@ == MyErrorView::MatchingReadyPodNotFound()
                &&& may_fail(items.deep_view(), ignore_readiness, randomise)
            },
        },
        !may_fail(items.deep_view(), ignore_readiness, randomise) ==> result is Ok,
        candidates(items.deep_view(), ignore_readiness).len() == 0 ==> result is Err,
        ignore_readiness && items.len() > 0 ==> result is Ok,
        !ignore_readiness && (forall|i: int|
            0 <= i < items.len() ==> !is_ready(#[trigger] items.deep_view()[i])) ==> result is Err,
{
    proof {
        if ignore_readiness {
            lemma_candidates_all(items.deep_view(), ignore_readiness);
        }
        if !ignore_readiness && (forall|i: int|
            0 <= i < items.len() ==> !is_ready(#[trigger] items.deep_view()[i])) {
            lemma_candidates_none(items.deep_view(), ignore_readiness);
        }
    }
    let length = items.len();
    let index = if randomise && length > 0 {
        random_index(length)
    } else {
        0
    };
    let result = select_pod(items, ignore_readiness, index);
    proof {
        let chosen = candidates(items.deep_view(), ignore_readiness);
        items.deep_view().lemma_filter_len(eligibility(ignore_readiness));
        if let Ok(pod) = result {
            items.deep_view().lemma_filter_pred(eligibility(ignore_readiness), index as int);
            assert(pod@ == chosen[index as int]);
        }
    }
    result
}

/// The ports that a container declares; none where it lists none.
pub open spec fn container_ports(container: ContainerView) -> Seq<ContainerPortView> {
    match container.ports {
        Some(ports) => ports,
        None => Seq::empty(),
    }
}

/// The ports of each container of a pod, container by container.
pub open spec fn ports_by_container(containers: Seq<ContainerView>) -> Seq<Seq<ContainerPortView>> {
    containers.map_values(|container: ContainerView| container_ports(container))
}

/// All ports that a pod declares: those of its first container in their
/// order, then those of the next, and so on. A pod without specification
/// declares none.
pub open spec fn declared_ports(pod: PodView) -> Seq<ContainerPortView> {
    match pod.spec {
        Some(spec) => ports_by_container(spec.containers).flatten(),
        None => Seq::empty(),
    }
}

/// The names of ports, port by port.
pub open spec fn declared_names(ports: Seq<ContainerPortView>) -> Seq<Option<Seq<char>>> {
    ports.map_values(|port: ContainerPortView| port.name)
}

/// The index of the first port in `ports` that is named `name`, or the
/// length of `ports` where none is.
pub open spec fn port_index(ports: Seq<ContainerPortView>, name: Seq<char>) -> int {
    first_named(declared_names(ports), name)
}

/// A port number as a 16-bit port, if it is one.
pub open spec fn port_number(value: i32) -> Option<u16> {
    if 0 <= value <= u16::MAX {
        Some(value as u16)
    } else {
        None
    }
}

/// The port on `pod` that `spec` denotes.
///
/// A number denotes itself if it is a 16-bit port. A name denotes the number
/// of the first declared port of that name, if that number is a 16-bit port.
/// Nothing else denotes a port: there is no default.
pub open spec fn resolved_port(spec: PortSpecView, pod: PodView) -> Option<u16> {
    match spec {
        PortSpecView::Number(value) => port_number(value),
        PortSpecView::Name(name) => {
            let ports = declared_ports(pod);
            let i = port_index(ports, name);
            if i < ports.len() {
                port_number(ports[i].container_port)
            } else {
                None
            }
        },
    }
}

/// Reads a port number as a 16-bit port.
pub fn to_port(value: i32) -> (port: Option<u16>)
    ensures
        port == port_number(value),
{
    if 0 <= value && value <= 0xffff {
        Some(value as u16)
    } else {
        None
    }
}

/// Clones a port specification.
pub fn clone_port_spec(spec: &PortSpec) -> (copy: PortSpec)
    ensures
        copy@ == spec@,
{
    match spec {
        PortSpec::Number(n) => PortSpec::Number(*n),
        PortSpec::Name(name) => PortSpec::Name(name.clone()),
    }
}

/// Finds the first port named `name` that `pod` declares.
pub fn find_named_port<'a>(pod: &'a PodCandidate, name: &str) -> (found: Option<&'a ContainerPort>)
    ensures
        match found {
            Some(port) => {
                &&& port_index(declared_ports(pod@), name@) < declared_ports(pod@).len()
                &&& port@ == declared_ports(pod@)[port_index(declared_ports(pod@), name@)]
            },
            None => port_index(declared_ports(pod@), name@) == declared_ports(pod@).len(),
        },
{
    let spec = match &pod.spec {
        None => {
            return None;
        },
        Some(spec) => spec,
    };
    let ghost grouped = ports_by_container(spec@.containers);
    let ghost all = grouped.flatten();
    let mut ci: usize = 0;
    proof {
        assert(grouped.take(0) =~= Seq::<Seq<ContainerPortView>>::empty());
    }
    while ci < spec.containers.len()
        invariant
            ci <= spec.containers.len(),
            pod@.spec == Some(spec@),
            grouped == ports_by_container(spec@.containers),
            grouped.len() == spec.containers.len(),
            all == grouped.flatten(),
            all == declared_ports(pod@),
            forall|j: int|
                0 <= j < grouped.take(ci as int).flatten().len() ==> (#[trigger] grouped.take(
                    ci as int,
                ).flatten()[j]).name != Some(name@),
        decreases spec.containers.len() - ci,
    {
        let container = &spec.containers[ci];
        let ghost before = grouped.take(ci as int).flatten();
        let ghost here = grouped[ci as int];
        proof {
            assert(spec@.containers[ci as int] == container@);
            assert(here == container_ports(container@));
            assert(grouped.take(ci as int + 1) =~= grouped.take(ci as int).push(here));
            grouped.take(ci as int).lemma_flatten_push(here);
            assert(grouped =~= grouped.take(ci as int + 1) + grouped.skip(ci as int + 1));
            lemma_flatten_concat(grouped.take(ci as int + 1), grouped.skip(ci as int + 1));
        }
        match &container.ports {
            None => {},
            Some(ports) => {
                let mut pi: usize = 0;
                while pi < ports.len()
                    invariant
                        pi <= ports.len(),
                        here == ports.deep_view(),
                        all == declared_ports(pod@),
                        forall|j: int|
                            0 <= j < pi ==> (#[trigger] ports.deep_view()[j]).name != Some(name@),
                        forall|j: int|
                            0 <= j < before.len() ==> (#[trigger] before[j]).name != Some(name@),
                        all =~= before + here + grouped.skip(ci as int + 1).flatten(),
                    decreases ports.len() - pi,
                {
                    let port = &ports[pi];
                    proof {
                        assert(ports.deep_view()[pi as int] == port@);
                    }
                    let named = match &port.name {
                        Some(port_name) => str_eq(port_name.as_str(), name),
                        None => false,
                    };
                    if named {
                        proof {
                            let at = before.len() + pi;
                            assert(all[at] == port@);
                            assert forall|j: int| 0 <= j < at implies (#[trigger] all[j]).name
                                != Some(name@) by {
                                if j < before.len() {
                                    assert(all[j] == before[j]);
                                } else {
                                    assert(all[j] == ports.deep_view()[j - before.len()]);
                                }
                            }
                            lemma_first_named_is(declared_names(all), name@, at);
                        }
                        return Some(port);
                    }
                    pi += 1;
                }
            },
        }
        proof {
            let after = grouped.take(ci as int + 1).flatten();
            assert(after =~= before + here);
            assert forall|j: int| 0 <= j < after.len() implies (#[trigger] after[j]).name != Some(
                name@,
            ) by {
                if j < before.len() {
                    assert(after[j] == before[j]);
                } else {
                    assert(after[j] == here[j - before.len()]);
                }
            }
        }
        ci += 1;
    }
    proof {
        assert(grouped.take(ci as int) =~= grouped);
        lemma_first_named_is(declared_names(all), name@, all.len() as int);
    }
    None
}

/// Resolves a port specification against a pod.
///
/// Fails with `CouldNotFindPort`, carrying the specification, where it
/// denotes no port on the pod: a number outside the 16-bit range, a name
/// that the pod does not declare, or a name whose first declaration has a
/// number outside that range.
pub fn find_pod_port(pod_port: &PortSpec, pod: &PodCandidate) -> (result: Result<u16, MyError>)
    ensures
        match result {
            Ok(port) => resolved_port(pod_port@, pod@) == Some(port),
            Err(e) => resolved_port(pod_port@, pod@) is None && e@
                == MyErrorView::CouldNotFindPort(pod_port@),
        },
{
    let port = match pod_port {
        PortSpec::Number(value) => to_port(*value),
        PortSpec::Name(name) => match find_named_port(pod, name.as_str()) {
            Some(declared) => to_port(declared.container_port),
            None => None,
        },
    };
    match port {
        Some(port) => Ok(port),
        None => Err(MyError::CouldNotFindPort(clone_port_spec(pod_port))),
    }
}

/// While readiness is heeded, the choice never falls on a pod that is not
/// ready, and only on a pod that was listed; and where no listed pod is
/// ready there is nothing to choose, so that the choice fails instead of
/// falling back on another pod.
pub proof fn lemma_choice_heeds_readiness(items: Seq<PodView>, randomise: bool, pod: PodView)
    ensures
        may_choose(items, false, randomise, pod) ==> is_ready(pod) && items.contains(pod),
        (forall|i: int| 0 <= i < items.len() ==> !is_ready(#[trigger] items[i])) ==> !may_choose(
            items,
            false,
            randomise,
            pod,
        ) && may_fail(items, false, randomise),
{
    let pred = eligibility(false);
    items.lemma_filter_len(pred);
    if may_choose(items, false, randomise, pod) {
        let index = choose|index: int|
            0 <= index < candidates(items, false).len() && (!randomise ==> index == 0) && pod
                == #[trigger] candidates(items, false)[index];
        items.lemma_filter_pred(pred, index);
        assert(items.filter(pred).contains(pod));
        items.lemma_filter_contains_rev(pred, pod);
    }
    if forall|i: int| 0 <= i < items.len() ==> !is_ready(#[trigger] items[i]) {
        lemma_candidates_none(items, false);
    }
}

/// Where readiness is ignored, every listed pod may be chosen, whatever its
/// readiness, and the choice among one pod or more cannot fail.
pub proof fn lemma_choice_ignoring_readiness(items: Seq<PodView>, randomise: bool)
    requires
        items.len() > 0,
    ensures
        candidates(items, true) == items,
        !may_fail(items, true, randomise),
        may_choose(items, true, randomise, items[0]),
{
    lemma_candidates_all(items, true);
    assert(candidates(items, true)[0] == items[0]);
}

/// Whether some port among `ports` is named `name`.
pub open spec fn declares(ports: Seq<ContainerPortView>, name: Seq<char>) -> bool {
    exists|i: int| 0 <= i < ports.len() && (#[trigger] ports[i]).name == Some(name)
}

/// Some port is named `name` exactly if the first port of that name has a
/// place among the ports, and that place then holds a port of that name.
pub proof fn lemma_declared_has_index(ports: Seq<ContainerPortView>, name: Seq<char>)
    ensures
        declares(ports, name) <==> port_index(ports, name) < ports.len(),
        0 <= port_index(ports, name) <= ports.len(),
        port_index(ports, name) < ports.len() ==> ports[port_index(ports, name)].name == Some(
            name,
        ),
{
    let names = declared_names(ports);
    lemma_first_named(names, name);
    if declares(ports, name) {
        let i = choose|i: int| 0 <= i < ports.len() && (#[trigger] ports[i]).name == Some(name);
        assert(names[i] == Some(name));
    }
    if port_index(ports, name) < ports.len() {
        assert(ports[port_index(ports, name)].name == Some(name));
    }
}

/// What a port specification resolves to. A number resolves to itself if
/// it is a 16-bit port, whatever the pod declares. A name that the pod does
/// not declare resolves to nothing; a name that it declares resolves to the
/// number of its first declaration, if that is a 16-bit port.
pub proof fn lemma_port_resolution(spec: PortSpecView, pod: PodView)
    ensures
        spec matches PortSpecView::Number(value) ==> resolved_port(spec, pod) == port_number(value),
        spec matches PortSpecView::Name(name) ==> (declares(declared_ports(pod), name)
            <==> port_index(declared_ports(pod), name) < declared_ports(pod).len()),
        spec matches PortSpecView::Name(name) ==> (!declares(declared_ports(pod), name)
            ==> resolved_port(spec, pod) is None),
        spec matches PortSpecView::Name(name) ==> (declares(declared_ports(pod), name)
            ==> resolved_port(spec, pod) == port_number(
            declared_ports(pod)[port_index(declared_ports(pod), name)].container_port,
        )),
{
    if let PortSpecView::Name(name) = spec {
        lemma_declared_has_index(declared_ports(pod), name);
    }
}

/// Among numbers and declared ports that are 16-bit ports, a port
/// specification resolves exactly if it is a number or a name that the pod
/// declares.
pub proof fn lemma_resolves_iff_numeric_or_declared(spec: PortSpecView, pod: PodView)
    requires
        spec matches PortSpecView::Number(value) ==> port_number(value) is Some,
        forall|i: int|
            0 <= i < declared_ports(pod).len() ==> port_number(
                (#[trigger] declared_ports(pod)[i]).container_port,
            ) is Some,
    ensures
        resolved_port(spec, pod) is Some <==> (spec is Number || declares(
            declared_ports(pod),
            spec->Name_0,
        )),
{
    if let PortSpecView::Name(name) = spec {
        lemma_declared_has_index(declared_ports(pod), name);
    }
}

/// Where one connection is forwarded to.
#[derive(Debug)]
pub struct ForwardTarget<'a> {
    pub pod: &'a PodCandidate,
    pub port: u16,
}

/// A connection whose target has been looked for: its session, and the
/// target or the reason why there is none.
pub struct Started<'a> {
    pub session: ConnectionSession,
    pub target: Result<ForwardTarget<'a>, MyError>,
}

/// Begins a connection: chooses the pod among those listed for it and
/// resolves the port on that pod.
///
/// With a target the session stands at `PortResolved`, ready for the tunnel.
/// Without one it is closed: with `MatchingReadyPodNotFound` where no pod
/// was chosen, with `CouldNotFindPort` where the chosen pod has no such
/// port. Either way only this connection is concerned.
pub fn forward_connection<'a>(
    items: &'a Vec<PodCandidate>,
    pod_port: &PortSpec,
    args: &ControlArgs,
) -> (started: Started<'a>)
    ensures
        started.session@.close_on_unready == args.close_on_unready,
        match started.target {
            Ok(target) => {
                &&& started.session@ == SessionView {
                    state: ConnectionState::PortResolved,
                    ..initial(started.session@.flag, started.session@.handle)
                }
                &&& may_choose(
                    items.deep_view(),
                    args.ignore_readiness,
                    args.randomise,
                    target.pod@,
                )
                &&& eligible(target.pod@, args.ignore_readiness)
                &&& exists|i: int| 0 <= i < items.len() && *target.pod == #[trigger] items[i]
                &&& resolved_port(pod_port@, target.pod@) == Some(target.port)
            },
            Err(e) => {
                &&& started.session@.state == ConnectionState::Closed
                &&& started.session@.failure is Some
                &&& started.session@.reason is None
                &&& !started.session@.tripped
                &&& if started.session@.failure == Some(ConnectionFailure::NoReadyPod) {
                    &&& e@ == MyErrorView::MatchingReadyPodNotFound()
                    &&& may_fail(items.deep_view(), args.ignore_readiness, args.randomise)
                } else {
                    &&& started.session@.failure == Some(ConnectionFailure::PortNotFound)
                    &&& e@ == MyErrorView::CouldNotFindPort(pod_port@)
                    &&& exists|pod: PodView|
                        #[trigger] may_choose(
                            items.deep_view(),
                            args.ignore_readiness,
                            args.randomise,
                            pod,
                        ) && resolved_port(pod_port@, pod) is None
                }
            },
        },
        candidates(items.deep_view(), args.ignore_readiness).len() == 0 ==> started.target is Err,
        !args.randomise && candidates(items.deep_view(), args.ignore_readiness).len() > 0
            ==> (started.target is Ok <==> resolved_port(
            pod_port@,
            candidates(items.deep_view(), args.ignore_readiness)[0],
        ) is Some),
{
    let mut session = ConnectionSession::new(args.close_on_unready);
    let pod = match find_pod(items, args.ignore_readiness, args.randomise) {
        Ok(pod) => pod,
        Err(e) => {
            session.step(ConnectionEvent::PodSelection { found: false });
            return Started { session, target: Err(e) };
        },
    };
    session.step(ConnectionEvent::PodSelection { found: true });
    match find_pod_port(pod_port, pod) {
        Ok(port) => {
            session.step(ConnectionEvent::PortResolution { found: true });
            Started { session, target: Ok(ForwardTarget { pod, port }) }
        },
        Err(e) => {
            session.step(ConnectionEvent::PortResolution { found: false });
            Started { session, target: Err(e) }
        },
    }
}

} // verus!
