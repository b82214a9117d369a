//! Setting up one forward target: from the service that the forward names
//! to the pods it selects, the port on them, and the local sockets to bind.

use crate::cli::{Forward, ForwardView, LocalAddress};
use crate::errors::{MyError, MyErrorView};
use crate::pod::{clone_port_spec, PortSpec, PortSpecView};
use crate::text::{
    first_named, i32_of_text, lemma_first_named, lemma_first_named_is, parse_i32, str_eq,
};
use vstd::prelude::*;
use vstd::string::StringExecFns;

verus! {

/// A port that a service exposes.
#[derive(Clone, Debug, PartialEq, Eq)]
pub struct ServicePort {
    pub name: Option<String>,
    pub port: i32,
    pub target_port: Option<PortSpec>,
}

/// The mathematical value of a [`ServicePort`].
pub struct ServicePortView {
    pub name: Option<Seq<char>>,
    pub port: i32,
    pub target_port: Option<PortSpecView>,
}

impl View for ServicePort {
    type V = ServicePortView;

    open spec fn view(&self) -> ServicePortView {
        ServicePortView {
            name: self.name.deep_view(),
            port: self.port,
            target_port: self.target_port.deep_view(),
        }
    }
}

impl DeepView for ServicePort {
    type V = ServicePortView;

    open spec fn deep_view(&self) -> ServicePortView {
        self.view()
    }
}

/// Whether the text `a` comes before the text `b`, character by character:
/// at the first place where they differ `a` has the smaller character, or
/// `a` ends there and `b` goes on.
pub open spec fn text_less(a: Seq<char>, b: Seq<char>) -> bool
    decreases a.len(),
{
    if b.len() == 0 {
        false
    } else if a.len() == 0 {
        true
    } else if a.first() != b.first() {
        a.first() < b.first()
    } else {
        text_less(a.drop_first(), b.drop_first())
    }
}

/// Whether the keys of the pairs ascend strictly: each key comes before every
/// later one, so that no key occurs twice.
pub open spec fn ascending_keys(pairs: Seq<(Seq<char>, Seq<char>)>) -> bool {
    forall|i: int, j: int|
        0 <= i < j < pairs.len() ==> text_less((#[trigger] pairs[i]).0, (#[trigger] pairs[j]).0)
}

/// No text comes before itself.
pub proof fn lemma_text_less_irreflexive(a: Seq<char>)
    ensures
        !text_less(a, a),
    decreases a.len(),
{
    if a.len() > 0 {
        lemma_text_less_irreflexive(a.drop_first());
    }
}

/// What comes before a text comes before everything that the text comes
/// before.
pub proof fn lemma_text_less_transitive(a: Seq<char>, b: Seq<char>, c: Seq<char>)
    requires
        text_less(a, b),
        text_less(b, c),
    ensures
        text_less(a, c),
    decreases a.len(),
{
    if a.len() > 0 && a.first() == b.first() && b.first() == c.first() {
        lemma_text_less_transitive(a.drop_first(), b.drop_first(), c.drop_first());
    }
}

/// Keys that ascend strictly are all different.
pub proof fn lemma_ascending_keys_distinct(pairs: Seq<(Seq<char>, Seq<char>)>, i: int, j: int)
    requires
        ascending_keys(pairs),
        0 <= i < pairs.len(),
        0 <= j < pairs.len(),
        i != j,
    ensures
        pairs[i].0 != pairs[j].0,
{
    lemma_text_less_irreflexive(pairs[i].0);
    if i < j {
        assert(text_less(pairs[i].0, pairs[j].0));
    } else {
        assert(text_less(pairs[j].0, pairs[i].0));
    }
}

/// Tells whether the text `a` comes before the text `b`.
pub fn text_lt(a: &str, b: &str) -> (less: bool)
    ensures
        less == text_less(a@, b@),
{
    let n = a.unicode_len();
    let m = b.unicode_len();
    let mut i: usize = 0;
    proof {
        assert(a@.skip(0) =~= a@);
        assert(b@.skip(0) =~= b@);
    }
    while i < n && i < m
        invariant
            n == a@.len(),
            m == b@.len(),
            i <= n,
            i <= m,
            text_less(a@, b@) == text_less(a@.skip(i as int), b@.skip(i as int)),
        decreases n - i,
    {
        let x = a.get_char(i);
        let y = b.get_char(i);
        proof {
            assert(a@.skip(i as int).first() == x);
            assert(b@.skip(i as int).first() == y);
            assert(a@.skip(i as int).drop_first() =~= a@.skip(i as int + 1));
            assert(b@.skip(i as int).drop_first() =~= b@.skip(i as int + 1));
        }
        if x != y {
            return x < y;
        }
        i += 1;
    }
    i < m
}

/// The labels by which a service selects its pods: pairs of key and value
/// whose keys ascend strictly.
///
/// This is a map from keys to values, written out in the order of its keys.
#[derive(Debug, PartialEq, Eq)]
pub struct Selector {
    pairs: Vec<(String, String)>,
}

impl View for Selector {
    type V = Seq<(Seq<char>, Seq<char>)>;

    closed spec fn view(&self) -> Seq<(Seq<char>, Seq<char>)> {
        self.pairs.deep_view()
    }
}

impl DeepView for Selector {
    type V = Seq<(Seq<char>, Seq<char>)>;

    open spec fn deep_view(&self) -> Seq<(Seq<char>, Seq<char>)> {
        self.view()
    }
}

impl Selector {
    #[verifier::type_invariant]
    spec fn keys_ascend(self) -> bool {
        ascending_keys(self.pairs.deep_view())
    }

    /// The selector made of `pairs`, if their keys ascend strictly.
    pub fn new(pairs: Vec<(String, String)>) -> (selector: Option<Selector>)
        ensures
            match selector {
                Some(selector) => selector@ == pairs.deep_view() && ascending_keys(selector@),
                None => !ascending_keys(pairs.deep_view()),
            },
    {
        let ghost all = pairs.deep_view();
        if pairs.len() == 0 {
            proof {
                assert(all.len() == 0);
            }
            return Some(Selector { pairs });
        }
        let mut k: usize = 1;
        while k < pairs.len()
            invariant
                1 <= k <= pairs.len(),
                all == pairs.deep_view(),
                ascending_keys(all.take(k as int)),
            decreases pairs.len() - k,
        {
            let ascends = text_lt(pairs[k - 1].0.as_str(), pairs[k].0.as_str());
            proof {
                assert(all[k as int - 1].0 == pairs@[k as int - 1].0@);
                assert(all[k as int].0 == pairs@[k as int].0@);
            }
            if !ascends {
                return None;
            }
            proof {
                let upto = all.take(k as int + 1);
                assert forall|i: int, j: int| 0 <= i < j < upto.len() implies text_less(
                    (#[trigger] upto[i]).0,
                    (#[trigger] upto[j]).0,
                ) by {
                    if j < k {
                        assert(all.take(k as int)[i] == upto[i]);
                        assert(all.take(k as int)[j] == upto[j]);
                    } else if i < k - 1 {
                        assert(all.take(k as int)[i] == upto[i]);
                        assert(all.take(k as int)[k as int - 1] == upto[k as int - 1]);
                        lemma_text_less_transitive(upto[i].0, upto[k as int - 1].0, upto[j].0);
                    }
                }
            }
            k += 1;
        }
        proof {
            assert(all.take(k as int) =~= all);
        }
        Some(Selector { pairs })
    }

    /// The pairs of the selector, in the order of their keys.
    pub fn pairs(&self) -> (pairs: &Vec<(String, String)>)
        ensures
            pairs.deep_view() == self@,
            ascending_keys(self@),
    {
        proof {
            use_type_invariant(self);
        }
        &self.pairs
    }
}

/// What a forward reads of a service's specification: the labels by which it
/// selects its pods and the ports it exposes.
#[derive(Debug, PartialEq, Eq)]
pub struct ServiceSpec {
    pub selector: Option<Selector>,
    pub ports: Option<Vec<ServicePort>>,
}

/// The mathematical value of a [`ServiceSpec`].
pub struct ServiceSpecView {
    pub selector: Option<Seq<(Seq<char>, Seq<char>)>>,
    pub ports: Option<Seq<ServicePortView>>,
}

impl View for ServiceSpec {
    type V = ServiceSpecView;

    open spec fn view(&self) -> ServiceSpecView {
        ServiceSpecView { selector: self.selector.deep_view(), ports: self.ports.deep_view() }
    }
}

impl DeepView for ServiceSpec {
    type V = ServiceSpecView;

    open spec fn deep_view(&self) -> ServiceSpecView {
        self.view()
    }
}

/// A service as the cluster returned it.
#[derive(Debug, PartialEq, Eq)]
pub struct Service {
    pub spec: Option<ServiceSpec>,
}

/// The mathematical value of a [`Service`].
pub struct ServiceView {
    pub spec: Option<ServiceSpecView>,
}

impl View for Service {
    type V = ServiceView;

    open spec fn view(&self) -> ServiceView {
        ServiceView { spec: self.spec.deep_view() }
    }
}

/// Pairs of labels as text: `key=value` for each pair, in order, with a
/// comma between one pair and the next. For a selector this is the order of
/// its keys, and no key is written twice.
pub open spec fn labels_of(selector: Seq<(Seq<char>, Seq<char>)>) -> Seq<char>
    decreases selector.len(),
{
    if selector.len() == 0 {
        Seq::empty()
    } else {
        let last = selector.last();
        let pair = last.0 + seq!['='] + last.1;
        if selector.len() == 1 {
            pair
        } else {
            labels_of(selector.drop_last()) + seq![','] + pair
        }
    }
}

/// Writes a selector as the text of a label query: its pairs in the
/// ascending order of their keys.
pub fn selector_labels(selector: &Selector) -> (labels: String)
    ensures
        labels@ == labels_of(selector@),
        ascending_keys(selector@),
{
    let selector = selector.pairs();
    let mut labels = String::new();
    let mut i: usize = 0;
    while i < selector.len()
        invariant
            i <= selector.len(),
            labels@ == labels_of(selector.deep_view().take(i as int)),
            i > 0 ==> labels@.len() > 0,
        decreases selector.len() - i,
    {
        proof {
            reveal_strlit(",");
            reveal_strlit("=");
            let whole = selector.deep_view();
            let next = whole.take(i as int + 1);
            assert(next.drop_last() =~= whole.take(i as int));
            assert(next.last() == (selector@[i as int].0@, selector@[i as int].1@));
            assert(","@ =~= seq![',']);
            assert("="@ =~= seq!['=']);
        }
        if labels.as_str().unicode_len() > 0 {
            labels.append(",");
        }
        labels.append(selector[i].0.as_str());
        labels.append("=");
        labels.append(selector[i].1.as_str());
        proof {
            let whole = selector.deep_view();
            let next = whole.take(i as int + 1);
            let last = next.last();
            if i == 0 {
                assert(labels@ =~= last.0 + seq!['='] + last.1);
            } else {
                assert(labels@ =~= labels_of(whole.take(i as int)) + seq![','] + (last.0 + seq![
                    '=',
                ] + last.1));
            }
        }
        i += 1;
    }
    proof {
        assert(selector.deep_view().take(i as int) =~= selector.deep_view());
    }
    labels
}

/// The list parameters of `kube`, which carry the label query to the call
/// that lists pods. Nothing in this library looks inside one.
#[verifier::external_type_specification]
#[verifier::external_body]
pub struct ExListParams(kube::api::ListParams);

/// The list parameters that restrict a listing to the label query `labels`
/// and to nothing else.
pub uninterp spec fn labelled_list_params(labels: Seq<char>) -> kube::api::ListParams;

/// `ListParams::default().labels(..)` of `kube`: default list parameters
/// whose label selector is set to `labels`. The parameters returned depend
/// on `labels` alone.
#[verifier::external_body]
fn list_params_with_labels(labels: &str) -> (params: kube::api::ListParams)
    ensures
        params == labelled_list_params(labels@),
{
    kube::api::ListParams::default().labels(labels)
}

/// The list parameters that select the pods of a service with this selector.
pub fn selector_into_list_params(selectors: &Selector) -> (params: kube::api::ListParams)
    ensures
        params == labelled_list_params(labels_of(selectors@)),
        ascending_keys(selectors@),
{
    let labels = selector_labels(selectors);
    list_params_with_labels(labels.as_str())
}

/// The names of the ports of a service, port by port.
pub open spec fn port_names(ports: Seq<ServicePortView>) -> Seq<Option<Seq<char>>> {
    ports.map_values(|port: ServicePortView| port.name)
}

/// The index of the first port in `ports` that is named `name`, or the
/// length of `ports` where none is.
pub open spec fn named_port_index(ports: Seq<ServicePortView>, name: Seq<char>) -> int {
    first_named(port_names(ports), name)
}

/// The port on the pods that a service port stands for: its target port
/// where it names one, else its own number.
pub open spec fn target_of(port: ServicePortView) -> PortSpecView {
    match port.target_port {
        Some(target) => target,
        None => PortSpecView::Number(port.port),
    }
}

/// The port on the pods that the port text of a forward denotes.
///
/// A text that reads as a 32-bit number denotes that number, whatever the
/// service declares. Any other text is the name of a service port and
/// denotes the target of the first port of that name; it denotes nothing
/// where the service declares no such port.
pub open spec fn pod_port_of(service_port: Seq<char>, ports: Option<Seq<ServicePortView>>) -> Option<
    PortSpecView,
> {
    match i32_of_text(service_port) {
        Some(number) => Some(PortSpecView::Number(number)),
        None => match ports {
            None => None,
            Some(ports) => {
                let i = named_port_index(ports, service_port);
                if i < ports.len() {
                    Some(target_of(ports[i]))
                } else {
                    None
                }
            },
        },
    }
}

/// Finds the port on the pods that the port text of a forward denotes.
pub fn resolve_service_port(service_port: &str, ports: &Option<Vec<ServicePort>>) -> (target:
    Option<PortSpec>)
    ensures
        target.deep_view() == pod_port_of(service_port@, ports.deep_view()),
{
    match parse_i32(service_port) {
        Some(number) => Some(PortSpec::Number(number)),
        None => match ports {
            None => None,
            Some(list) => {
                let mut i: usize = 0;
                while i < list.len()
                    invariant
                        i <= list.len(),
                        i32_of_text(service_port@) is None,
                        ports.deep_view() == Some(list.deep_view()),
                        forall|j: int|
                            0 <= j < i ==> (#[trigger] list.deep_view()[j]).name != Some(
                                service_port@,
                            ),
                    decreases list.len() - i,
                {
                    let port = &list[i];
                    let found = match &port.name {
                        Some(name) => str_eq(name.as_str(), service_port),
                        None => false,
                    };
                    proof {
                        assert(list.deep_view()[i as int] == port@);
                    }
                    if found {
                        let target = match &port.target_port {
                            Some(target) => clone_port_spec(target),
                            None => PortSpec::Number(port.port),
                        };
                        proof {
                            lemma_first_named_is(port_names(list.deep_view()), service_port@, i as int);
                        }
                        return Some(target);
                    }
                    i += 1;
                }
                proof {
                    lemma_first_named_is(port_names(list.deep_view()), service_port@, i as int);
                }
                None
            },
        },
    }
}

/// Whether a service exposes a port named `name`.
pub open spec fn exposes(ports: Option<Seq<ServicePortView>>, name: Seq<char>) -> bool {
    match ports {
        Some(list) => exists|i: int| 0 <= i < list.len() && (#[trigger] list[i]).name == Some(name),
        None => false,
    }
}

/// The port text of a forward denotes a port on the pods exactly if it is a
/// number or the name of a port that the service exposes.
pub proof fn lemma_port_text_denotes(service_port: Seq<char>, ports: Option<Seq<ServicePortView>>)
    ensures
        pod_port_of(service_port, ports) is Some <==> (i32_of_text(service_port) is Some || exposes(
            ports,
            service_port,
        )),
{
    if let Some(list) = ports {
        let names = port_names(list);
        lemma_first_named(names, service_port);
        if exposes(ports, service_port) {
            let i = choose|i: int| 0 <= i < list.len() && (#[trigger] list[i]).name == Some(service_port);
            assert(names[i] == Some(service_port));
        }
        if named_port_index(list, service_port) < list.len() {
            assert(list[named_port_index(list, service_port)].name == Some(service_port));
        }
    }
}

/// A forward whose port text is neither a number nor the name of a port of
/// its service cannot be served: the setup fails, with `MissingNamedPort`
/// where the service has a specification and a selector, and so before
/// there is any socket to bind.
pub proof fn lemma_undeclared_port_fails(forward: ForwardView, service: ServiceView)
    requires
        i32_of_text(forward.service_port) is None,
        service.spec matches Some(spec) ==> !exposes(spec.ports, forward.service_port),
    ensures
        setup_of(forward, service) is Err,
        service.spec matches Some(spec) ==> (spec.selector is Some ==> setup_of(forward, service)
            == Err::<ForwardSetupView, MyErrorView>(
            MyErrorView::MissingNamedPort(forward.service_port, forward.service_name),
        )),
{
    if let Some(spec) = service.spec {
        lemma_port_text_denotes(forward.service_port, spec.ports);
    }
}

/// Where a listening socket is to be bound.
#[derive(Clone, Debug, PartialEq, Eq)]
pub enum BindAddress {
    /// The address that the forward names.
    Given(LocalAddress),
    /// The IPv4 loopback address.
    LoopbackV4,
    /// The IPv6 loopback address.
    LoopbackV6,
}

/// The mathematical value of a [`BindAddress`].
pub enum BindAddressView {
    Given(LocalAddress),
    LoopbackV4,
    LoopbackV6,
}

impl View for BindAddress {
    type V = BindAddressView;

    open spec fn view(&self) -> BindAddressView {
        match self {
            BindAddress::Given(a) => BindAddressView::Given(*a),
            BindAddress::LoopbackV4 => BindAddressView::LoopbackV4,
            BindAddress::LoopbackV6 => BindAddressView::LoopbackV6,
        }
    }
}

/// One local socket of a forward target: an address and a port.
#[derive(Clone, Debug, PartialEq, Eq)]
pub struct BindTarget {
    pub address: BindAddress,
    pub port: u16,
}

/// The mathematical value of a [`BindTarget`].
pub struct BindTargetView {
    pub address: BindAddressView,
    pub port: u16,
}

impl View for BindTarget {
    type V = BindTargetView;

    open spec fn view(&self) -> BindTargetView {
        BindTargetView { address: self.address@, port: self.port }
    }
}

impl DeepView for BindTarget {
    type V = BindTargetView;

    open spec fn deep_view(&self) -> BindTargetView {
        self.view()
    }
}

/// The sockets that a forward listens on: the one address it names, or both
/// loopback addresses, IPv4 first, where it names none; always on its local
/// port.
pub open spec fn binds_of(forward: ForwardView) -> Seq<BindTargetView> {
    match forward.local_address {
        Some(address) => seq![
            BindTargetView { address: BindAddressView::Given(address), port: forward.local_port },
        ],
        None => seq![
            BindTargetView { address: BindAddressView::LoopbackV4, port: forward.local_port },
            BindTargetView { address: BindAddressView::LoopbackV6, port: forward.local_port },
        ],
    }
}

/// Lists the sockets that a forward is to listen on.
pub fn bind_targets(forward: &Forward) -> (binds: Vec<BindTarget>)
    ensures
        binds.deep_view() == binds_of(forward@),
{
    let mut binds: Vec<BindTarget> = Vec::new();
    match &forward.local_address {
        Some(address) => {
            binds.push(
                BindTarget {
                    address: BindAddress::Given(*address),
                    port: forward.local_port,
                },
            );
        },
        None => {
            binds.push(BindTarget { address: BindAddress::LoopbackV4, port: forward.local_port });
            binds.push(BindTarget { address: BindAddress::LoopbackV6, port: forward.local_port });
        },
    }
    proof {
        assert(binds.deep_view() =~= binds_of(forward@));
    }
    binds
}

/// All that serving one forward target takes: the sockets to bind, the
/// parameters that list its pods, and the port on those pods.
#[derive(Debug)]
pub struct ForwardSetup {
    pub binds: Vec<BindTarget>,
    pub selector: kube::api::ListParams,
    pub pod_port: PortSpec,
}

/// The mathematical value of a [`ForwardSetup`], with the label query in
/// place of the list parameters made from it.
pub struct ForwardSetupView {
    pub binds: Seq<BindTargetView>,
    pub labels: Seq<char>,
    pub pod_port: PortSpecView,
}

/// What serving the forward takes, given the service that it names, or why
/// the forward cannot be served.
///
/// The service must have a specification, then a selector, then a port that
/// the port text of the forward denotes; the first of these that is missing
/// decides the error. The label query names the pairs of the selector in
/// the ascending order of their keys.
pub open spec fn setup_of(forward: ForwardView, service: ServiceView) -> Result<
    ForwardSetupView,
    MyErrorView,
> {
    match service.spec {
        None => Err(MyErrorView::ServiceNotFound(forward.service_name)),
        Some(spec) => match spec.selector {
            None => Err(MyErrorView::ServiceMissingSelectors(forward.service_name)),
            Some(selector) => match pod_port_of(forward.service_port, spec.ports) {
                None => Err(
                    MyErrorView::MissingNamedPort(forward.service_port, forward.service_name),
                ),
                Some(pod_port) => Ok(
                    ForwardSetupView {
                        binds: binds_of(forward),
                        labels: labels_of(selector),
                        pod_port,
                    },
                ),
            },
        },
    }
}

/// Works out how to serve a forward from the service that it names.
///
/// Nothing is bound here: an error comes back before any socket exists.
pub fn create_forward(forward: &Forward, service: &Service) -> (result: Result<
    ForwardSetup,
    MyError,
>)
    ensures
        match result {
            Ok(setup) => setup_of(forward@, service@) == Ok::<ForwardSetupView, MyErrorView>(
                ForwardSetupView {
                    binds: setup.binds.deep_view(),
                    labels: labels_of(service@.spec->0.selector->0),
                    pod_port: setup.pod_port@,
                },
            ) && setup.selector == labelled_list_params(labels_of(service@.spec->0.selector->0))
                && ascending_keys(service@.spec->0.selector->0),
            Err(e) => setup_of(forward@, service@) == Err::<ForwardSetupView, MyErrorView>(e@),
        },
{
    let spec = match &service.spec {
        None => {
            return Err(MyError::ServiceNotFound(forward.service_name.clone()));
        },
        Some(spec) => spec,
    };
    let selector = match &spec.selector {
        None => {
            return Err(MyError::ServiceMissingSelectors(forward.service_name.clone()));
        },
        Some(selector) => selector,
    };
    let pod_port = match resolve_service_port(forward.service_port.as_str(), &spec.ports) {
        None => {
            return Err(
                MyError::MissingNamedPort(
                    forward.service_port.clone(),
                    forward.service_name.clone(),
                ),
            );
        },
        Some(pod_port) => pod_port,
    };
    Ok(
        ForwardSetup {
            binds: bind_targets(forward),
            selector: selector_into_list_params(selector),
            pod_port,
        },
    )
}

} // verus!
