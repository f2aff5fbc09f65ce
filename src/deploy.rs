//! Kubernetes deployment of a challenge: the order in which its manifests are
//! applied and waited on, how its ports are exposed, the image pull secret,
//! when each kind of resource counts as ready, and what a wait's outcome
//! means.
use vstd::prelude::*;

use crate::challenge::{ChallengeConfig, ExposeType, Pod, PortConfig};
use crate::config::UserPass;
use crate::text::{push_text, same_text, string_from};

verus! {

/// The manifests applied for a challenge.
#[derive(Clone, Copy, Debug, PartialEq, Eq, Structural)]
pub enum ManifestKind {
    Namespace,
    PullSecret,
    Deployment,
    TcpService,
    HttpIngress,
}

/// How long to wait for what a manifest created to become ready.
#[derive(Clone, Copy, Debug, PartialEq, Eq, Structural)]
pub enum WaitPolicy {
    /// Do not wait.
    NoWait,
    /// Wait at most this many seconds.
    Within(u64),
}

/// The time limit of a readiness wait, in seconds: five minutes.
pub const READY_TIMEOUT_SECS: u64 = 300;

/// One manifest to render and apply, for a pod or for the whole challenge.
#[derive(Clone, Debug, PartialEq)]
pub struct DeployStep {
    pub kind: ManifestKind,
    pub pod: Option<String>,
    pub wait: WaitPolicy,
}

pub open spec fn step_view(s: DeployStep) -> (ManifestKind, Option<Seq<char>>, WaitPolicy) {
    (
        s.kind,
        match s.pod {
            Some(p) => Some(p@),
            None => None,
        },
        s.wait,
    )
}

/// The TCP exposures of `ports`, in order: `(internal port, exposed port)`.
pub open spec fn tcp_ports(ports: Seq<PortConfig>) -> Seq<(i64, i64)>
    decreases ports.len(),
{
    if ports.len() == 0 {
        Seq::empty()
    } else {
        let rest = tcp_ports(ports.drop_last());
        match ports.last().expose {
            ExposeType::Tcp(p) => rest.push((ports.last().internal, p)),
            ExposeType::Http(_) => rest,
        }
    }
}

/// The HTTP exposures of `ports`, in order: `(internal port, host name)`.
pub open spec fn http_ports(ports: Seq<PortConfig>) -> Seq<(i64, Seq<char>)>
    decreases ports.len(),
{
    if ports.len() == 0 {
        Seq::empty()
    } else {
        let rest = http_ports(ports.drop_last());
        match ports.last().expose {
            ExposeType::Http(h) => rest.push((ports.last().internal, h@)),
            ExposeType::Tcp(_) => rest,
        }
    }
}

pub open spec fn http_view(v: Seq<(i64, String)>) -> Seq<(i64, Seq<char>)> {
    v.map_values(|p: (i64, String)| (p.0, p.1@))
}

/// Splits a pod's ports into TCP and HTTP exposures, each in order.
pub fn split_ports(ports: &Vec<PortConfig>) -> (r: (Vec<(i64, i64)>, Vec<(i64, String)>))
    ensures
        r.0@ == tcp_ports(ports@),
        http_view(r.1@) == http_ports(ports@),
{
    let mut tcp: Vec<(i64, i64)> = Vec::new();
    let mut http: Vec<(i64, String)> = Vec::new();
    let mut i: usize = 0;
    while i < ports.len()
        invariant
            i <= ports@.len(),
            tcp@ == tcp_ports(ports@.subrange(0, i as int)),
            http_view(http@) == http_ports(ports@.subrange(0, i as int)),
        decreases ports.len() - i,
    {
        assert(ports@.subrange(0, i + 1).drop_last() =~= ports@.subrange(0, i as int));
        match &ports[i].expose {
            ExposeType::Tcp(p) => {
                tcp.push((ports[i].internal, *p));
            },
            ExposeType::Http(h) => {
                let ghost before = http@;
                http.push((ports[i].internal, h.clone()));
                assert(http_view(http@) =~= http_view(before).push((ports@[i as int].internal, h@)));
            },
        }
        i = i + 1;
    }
    assert(ports@.subrange(0, ports@.len() as int) =~= ports@);
    (tcp, http)
}

/// The steps of one pod: its Deployment, then a TCP Service where it exposes
/// TCP ports, then an HTTP Service and Ingress where it exposes HTTP ports;
/// each waited on for five minutes at most.
pub open spec fn pod_steps(p: Pod) -> Seq<(ManifestKind, Option<Seq<char>>, WaitPolicy)> {
    let w = WaitPolicy::Within(READY_TIMEOUT_SECS);
    let depl = seq![(ManifestKind::Deployment, Some(p.name@), w)];
    let tcp = if tcp_ports(p.ports@).len() > 0 {
        seq![(ManifestKind::TcpService, Some(p.name@), w)]
    } else {
        Seq::empty()
    };
    let http = if http_ports(p.ports@).len() > 0 {
        seq![(ManifestKind::HttpIngress, Some(p.name@), w)]
    } else {
        Seq::empty()
    };
    depl + tcp + http
}

/// The steps of all pods, pod after pod.
pub open spec fn pods_steps(pods: Seq<Pod>) -> Seq<(ManifestKind, Option<Seq<char>>, WaitPolicy)>
    decreases pods.len(),
{
    if pods.len() == 0 {
        Seq::empty()
    } else {
        pods_steps(pods.drop_last()) + pod_steps(pods.last())
    }
}

/// The steps of a challenge: its namespace, waited on for five minutes at
/// most; the image pull secret
/// in it; then the steps of each pod.
pub open spec fn deploy_steps(pods: Seq<Pod>) -> Seq<(ManifestKind, Option<Seq<char>>, WaitPolicy)> {
    seq![
        (ManifestKind::Namespace, None, WaitPolicy::Within(READY_TIMEOUT_SECS)),
        (ManifestKind::PullSecret, None, WaitPolicy::NoWait),
    ] + pods_steps(pods)
}

fn push_step(out: &mut Vec<DeployStep>, kind: ManifestKind, pod: &String, wait: WaitPolicy)
    ensures
        final(out)@.map_values(|s: DeployStep| step_view(s)) == old(out)@.map_values(
            |s: DeployStep| step_view(s),
        ).push((kind, Some(pod@), wait)),
{
    out.push(DeployStep { kind, pod: Some(pod.clone()), wait });
    assert(final(out)@.map_values(|s: DeployStep| step_view(s)) =~= old(out)@.map_values(
        |s: DeployStep| step_view(s),
    ).push((kind, Some(pod@), wait)));
}

/// The manifests to apply for `chal`, in the order they must go, each with
/// its wait: nothing of a pod is applied before the namespace is ready, and a
/// pod's services come after its Deployment.
pub fn deploy_plan(chal: &ChallengeConfig) -> (r: Vec<DeployStep>)
    ensures
        r@.map_values(|s: DeployStep| step_view(s)) == deploy_steps(chal.pods@),
{
    let mut out: Vec<DeployStep> = Vec::new();
    out.push(DeployStep {
        kind: ManifestKind::Namespace,
        pod: None,
        wait: WaitPolicy::Within(READY_TIMEOUT_SECS),
    });
    out.push(DeployStep { kind: ManifestKind::PullSecret, pod: None, wait: WaitPolicy::NoWait });
    let ghost head = out@.map_values(|s: DeployStep| step_view(s));
    assert(head =~= seq![
        (ManifestKind::Namespace, None, WaitPolicy::Within(READY_TIMEOUT_SECS)),
        (ManifestKind::PullSecret, None, WaitPolicy::NoWait),
    ]);
    let mut i: usize = 0;
    while i < chal.pods.len()
        invariant
            i <= chal.pods@.len(),
            out@.map_values(|s: DeployStep| step_view(s)) == head + pods_steps(
                chal.pods@.subrange(0, i as int),
            ),
        decreases chal.pods.len() - i,
    {
        let pod = &chal.pods[i];
        let ghost before = out@.map_values(|s: DeployStep| step_view(s));
        assert(chal.pods@.subrange(0, i + 1).drop_last() =~= chal.pods@.subrange(0, i as int));
        let (tcp, http) = split_ports(&pod.ports);
        let w = WaitPolicy::Within(READY_TIMEOUT_SECS);
        push_step(&mut out, ManifestKind::Deployment, &pod.name, w);
        if tcp.len() > 0 {
            push_step(&mut out, ManifestKind::TcpService, &pod.name, w);
        }
        if http.len() > 0 {
            push_step(&mut out, ManifestKind::HttpIngress, &pod.name, w);
        }
        assert(out@.map_values(|s: DeployStep| step_view(s)) =~= before + pod_steps(*pod));
        i = i + 1;
    }
    assert(chal.pods@.subrange(0, chal.pods@.len() as int) =~= chal.pods@);
    out
}

/// What `Base64::encode_string` of base64ct gives for the UTF-8 bytes of a
/// text.
pub uninterp spec fn base64_text_of(s: Seq<char>) -> Seq<char>;

/// Relies on base64ct's `Base64::encode_string` (standard alphabet, padded),
/// applied to the UTF-8 bytes of `s`. It panics only past `usize::MAX / 4`
/// bytes, which the bound on characters (four bytes at most each) keeps out.
#[verifier::external_body]
fn encode_text_base64(s: &str) -> (r: String)
    requires
        s@.len() <= usize::MAX / 16,
    ensures
        r@ == base64_text_of(s@),
{
    <base64ct::Base64 as base64ct::Encoding>::encode_string(s.as_bytes())
}

/// The registry login the cluster pulls images with, as the pull secret
/// holds it: `user:pass`, base64-encoded.
pub fn pull_secret_auth(cluster: &UserPass) -> (r: String)
    requires
        cluster.user@.len() + cluster.pass@.len() < usize::MAX / 16,
    ensures
        r@ == base64_text_of(cluster.user@ + seq![':'] + cluster.pass@),
{
    let mut cs: Vec<char> = Vec::new();
    push_text(&mut cs, cluster.user.as_str());
    cs.push(':');
    push_text(&mut cs, cluster.pass.as_str());
    assert(cs@ =~= cluster.user@ + seq![':'] + cluster.pass@);
    let joined = string_from(&cs);
    encode_text_base64(joined.as_str())
}

/// A condition in a Deployment's status.
#[derive(Clone, Debug, PartialEq)]
pub struct DeploymentCondition {
    pub status: String,
    pub reason: Option<String>,
}

/// A load balancer's ingress point.
#[derive(Clone, Debug, PartialEq)]
pub struct LoadBalancerPoint {
    pub hostname: Option<String>,
    pub ip: Option<String>,
}

/// What was last observed of a resource.
#[derive(Clone, Debug, PartialEq)]
pub enum ResourceStatus {
    Pod { phase: Option<String> },
    Deployment { conditions: Vec<DeploymentCondition> },
    Ingress { points: Vec<LoadBalancerPoint> },
    Service { service_type: Option<String>, points: Vec<LoadBalancerPoint> },
    Other,
}

pub open spec fn word_running() -> Seq<char> {
    seq!['R', 'u', 'n', 'n', 'i', 'n', 'g']
}

pub open spec fn word_true() -> Seq<char> {
    seq!['T', 'r', 'u', 'e']
}

pub open spec fn word_new_replica_set() -> Seq<char> {
    seq![
        'N', 'e', 'w', 'R', 'e', 'p', 'l', 'i', 'c', 'a', 'S', 'e', 't', 'A', 'v', 'a', 'i', 'l',
        'a', 'b', 'l', 'e'
    ]
}

pub open spec fn word_load_balancer() -> Seq<char> {
    seq!['L', 'o', 'a', 'd', 'B', 'a', 'l', 'a', 'n', 'c', 'e', 'r']
}

/// The condition reports `NewReplicaSetAvailable` as `True`.
pub open spec fn condition_complete(c: DeploymentCondition) -> bool {
    c.status@ == word_true() && c.reason is Some && c.reason->Some_0@ == word_new_replica_set()
}

/// Some condition reports `NewReplicaSetAvailable` as `True`.
pub open spec fn rollout_complete(conditions: Seq<DeploymentCondition>) -> bool {
    exists|i: int| 0 <= i < conditions.len() && condition_complete(#[trigger] conditions[i])
}

/// Some point is listed, and every listed point has a host name or an IP.
pub open spec fn points_assigned(points: Seq<LoadBalancerPoint>) -> bool {
    points.len() > 0 && forall|i: int|
        0 <= i < points.len() ==> (#[trigger] points[i]).hostname is Some || points[i].ip is Some
}

/// When a resource counts as ready: a Pod when Running; a Deployment when a
/// condition reports `NewReplicaSetAvailable` as `True`; an Ingress when its
/// points are assigned; a Service of type LoadBalancer when its points are
/// assigned, and any other Service at once; any other kind at once.
pub open spec fn ready(s: ResourceStatus) -> bool {
    match s {
        ResourceStatus::Pod { phase } => phase is Some && phase->Some_0@ == word_running(),
        ResourceStatus::Deployment { conditions } => rollout_complete(conditions@),
        ResourceStatus::Ingress { points } => points_assigned(points@),
        ResourceStatus::Service { service_type, points } => if service_type is Some
            && service_type->Some_0@ == word_load_balancer() {
            points_assigned(points@)
        } else {
            true
        },
        ResourceStatus::Other => true,
    }
}

fn points_ready(points: &Vec<LoadBalancerPoint>) -> (r: bool)
    ensures
        r == points_assigned(points@),
{
    if points.len() == 0 {
        return false;
    }
    let mut i: usize = 0;
    while i < points.len()
        invariant
            i <= points@.len(),
            forall|k: int| 0 <= k < i ==> (#[trigger] points@[k]).hostname is Some || points@[k].ip is Some,
        decreases points.len() - i,
    {
        if points[i].hostname.is_none() && points[i].ip.is_none() {
            return false;
        }
        i = i + 1;
    }
    true
}

/// Whether `s` is ready.
pub fn is_ready(s: &ResourceStatus) -> (r: bool)
    ensures
        r == ready(*s),
{
    proof {
        reveal_strlit("Running");
        reveal_strlit("True");
        reveal_strlit("NewReplicaSetAvailable");
        reveal_strlit("LoadBalancer");
        assert("Running"@ =~= word_running());
        assert("True"@ =~= word_true());
        assert("NewReplicaSetAvailable"@ =~= word_new_replica_set());
        assert("LoadBalancer"@ =~= word_load_balancer());
    }
    match s {
        ResourceStatus::Pod { phase } => match phase {
            Some(p) => same_text(p.as_str(), "Running"),
            None => false,
        },
        ResourceStatus::Deployment { conditions } => {
            let mut i: usize = 0;
            while i < conditions.len()
                invariant
                    i <= conditions@.len(),
                    *s == (ResourceStatus::Deployment { conditions: *conditions }),
                    forall|k: int|
                        0 <= k < i ==> !condition_complete(#[trigger] conditions@[k]),
                decreases conditions.len() - i,
            {
                let c = &conditions[i];
                let is_new = match &c.reason {
                    Some(r) => same_text(r.as_str(), "NewReplicaSetAvailable"),
                    None => false,
                };
                proof {
                    reveal_strlit("True");
                    reveal_strlit("NewReplicaSetAvailable");
                    assert("True"@ =~= word_true());
                    assert("NewReplicaSetAvailable"@ =~= word_new_replica_set());
                }
                let done = is_new && same_text(c.status.as_str(), "True");
                assert(done == condition_complete(conditions@[i as int]));
                if done {
                    assert(rollout_complete(conditions@)) by {
                        assert(condition_complete(conditions@[i as int]));
                    }
                    return true;
                }
                i = i + 1;
            }
            false
        },
        ResourceStatus::Ingress { points } => points_ready(points),
        ResourceStatus::Service { service_type, points } => {
            let lb = match service_type {
                Some(t) => same_text(t.as_str(), "LoadBalancer"),
                None => false,
            };
            if lb {
                points_ready(points)
            } else {
                true
            }
        },
        ResourceStatus::Other => true,
    }
}

/// A Service that is not of type LoadBalancer is ready whatever its
/// load-balancer points hold; one of type LoadBalancer is ready exactly when
/// some point is listed and every point has a host name or an IP.
pub proof fn lemma_service_readiness(service_type: Option<String>, points: Vec<LoadBalancerPoint>)
    ensures
        !(service_type is Some && service_type->Some_0@ == word_load_balancer()) ==> ready(
            ResourceStatus::Service { service_type, points },
        ),
        service_type is Some && service_type->Some_0@ == word_load_balancer() ==> (ready(
            ResourceStatus::Service { service_type, points },
        ) <==> points_assigned(points@)),
        service_type is Some && service_type->Some_0@ == word_load_balancer() && points@.len() == 0
            ==> !ready(ResourceStatus::Service { service_type, points }),
{
}

/// A release of a Helm chart, by the labels that Helm gives its secret.
#[derive(Clone, Debug, PartialEq)]
pub struct HelmRelease {
    pub name: Option<String>,
    pub version: Option<String>,
    pub status: Option<String>,
}

/// Why the cluster is not set up.
#[derive(Clone, Debug, PartialEq)]
pub enum ChartFailure {
    /// No release of the chart is installed.
    Missing(String),
    /// The latest release of the chart is not deployed.
    DeploymentFailed(String),
}

/// The value of a decimal numeral, as `usize::from_str` reads it: an optional
/// `+`, then one or more digits.
pub open spec fn digits_value(s: Seq<char>) -> int
    decreases s.len(),
{
    if s.len() == 0 {
        0
    } else {
        digits_value(s.drop_last()) * 10 + (s.last() as int - '0' as int)
    }
}

pub open spec fn all_digits(s: Seq<char>) -> bool {
    forall|i: int| 0 <= i < s.len() ==> '0' <= #[trigger] s[i] && s[i] <= '9'
}

/// What `usize::from_str` gives for `s`, or `None` where it fails.
pub open spec fn parse_usize(s: Seq<char>) -> Option<int> {
    let d = if s.len() > 0 && s[0] == '+' {
        s.drop_first()
    } else {
        s
    };
    if d.len() > 0 && all_digits(d) && digits_value(d) <= usize::MAX {
        Some(digits_value(d))
    } else {
        None
    }
}

proof fn lemma_digits_monotone(s: Seq<char>, k: int)
    requires
        0 <= k <= s.len(),
        all_digits(s),
    ensures
        digits_value(s.subrange(0, k)) <= digits_value(s),
        0 <= digits_value(s.subrange(0, k)),
    decreases s.len() - k,
{
    if k < s.len() {
        lemma_digits_monotone(s, k + 1);
        assert(s.subrange(0, k + 1).drop_last() =~= s.subrange(0, k));
    } else {
        assert(s.subrange(0, k) =~= s);
    }
    lemma_digits_nonneg(s.subrange(0, k));
}

proof fn lemma_digits_nonneg(s: Seq<char>)
    requires
        all_digits(s),
    ensures
        0 <= digits_value(s),
    decreases s.len(),
{
    if s.len() > 0 {
        lemma_digits_nonneg(s.drop_last());
    }
}

/// Reads a decimal label the way `str::parse::<usize>` does.
pub fn parse_label_number(s: &str) -> (r: Option<usize>)
    ensures
        r is Some <==> parse_usize(s@) is Some,
        r is Some ==> r->Some_0 == parse_usize(s@)->Some_0,
{
    let cs = crate::text::chars_of(s);
    let start: usize = if cs.len() > 0 && cs[0] == '+' {
        1
    } else {
        0
    };
    let ghost d = if cs@.len() > 0 && cs@[0] == '+' {
        cs@.drop_first()
    } else {
        cs@
    };
    assert(d =~= cs@.subrange(start as int, cs@.len() as int));
    if start >= cs.len() {
        return None;
    }
    let mut value: usize = 0;
    let mut i: usize = start;
    while i < cs.len()
        invariant
            start <= i <= cs@.len(),
            cs@ == s@,
            d == (if s@.len() > 0 && s@[0] == '+' {
                s@.drop_first()
            } else {
                s@
            }),
            d == cs@.subrange(start as int, cs@.len() as int),
            all_digits(cs@.subrange(start as int, i as int)),
            value as int == digits_value(cs@.subrange(start as int, i as int)),
        decreases cs.len() - i,
    {
        let c = cs[i];
        assert(cs@.subrange(start as int, i + 1).drop_last() =~= cs@.subrange(start as int, i as int));
        if c < '0' || c > '9' {
            assert(!all_digits(d)) by {
                assert(d[i - start] == c);
            }
            return None;
        }
        let digit: usize = (c as u32 - '0' as u32) as usize;
        if value > (usize::MAX - digit) / 10 {
            proof {
                assert(value * 10 + digit > usize::MAX) by (nonlinear_arith)
                    requires
                        value > (usize::MAX - digit) / 10,
                        digit <= 9,
                ;
                assert(digits_value(cs@.subrange(start as int, i + 1)) == value * 10 + digit);
                if all_digits(d) {
                    lemma_digits_monotone(d, i + 1 - start);
                    assert(d.subrange(0, i + 1 - start) =~= cs@.subrange(start as int, i + 1));
                }
            }
            return None;
        }
        value = value * 10 + digit;
        i = i + 1;
    }
    Some(value)
}

pub open spec fn version_of(r: HelmRelease) -> int {
    match r.version {
        Some(v) => match parse_usize(v@) {
            Some(n) => n,
            None => 0,
        },
        None => 0,
    }
}

/// The latest release of the chart `chart` among `rels`: the one of highest
/// version (an unreadable version counts as 0), the later one among equals.
pub open spec fn latest_release(rels: Seq<HelmRelease>, chart: Seq<char>) -> Option<HelmRelease>
    decreases rels.len(),
{
    if rels.len() == 0 {
        None
    } else {
        let prev = latest_release(rels.drop_last(), chart);
        let r = rels.last();
        if r.name is Some && r.name->Some_0@ == chart && (prev is None || version_of(prev->Some_0)
            <= version_of(r)) {
            Some(r)
        } else {
            prev
        }
    }
}

fn release_version(r: &HelmRelease) -> (v: usize)
    ensures
        v == version_of(*r),
{
    match &r.version {
        Some(s) => match parse_label_number(s.as_str()) {
            Some(n) => n,
            None => 0,
        },
        None => 0,
    }
}

fn latest_of<'a>(rels: &'a Vec<HelmRelease>, chart: &str) -> (r: Option<&'a HelmRelease>)
    ensures
        r is Some <==> latest_release(rels@, chart@) is Some,
        r is Some ==> *r->Some_0 == latest_release(rels@, chart@)->Some_0,
{
    let mut best: Option<&'a HelmRelease> = None;
    let mut i: usize = 0;
    while i < rels.len()
        invariant
            i <= rels@.len(),
            best is Some <==> latest_release(rels@.subrange(0, i as int), chart@) is Some,
            best is Some ==> *best->Some_0 == latest_release(rels@.subrange(0, i as int), chart@)->Some_0,
        decreases rels.len() - i,
    {
        assert(rels@.subrange(0, i + 1).drop_last() =~= rels@.subrange(0, i as int));
        let r = &rels[i];
        let named = match &r.name {
            Some(n) => same_text(n.as_str(), chart),
            None => false,
        };
        if named {
            let newer = match best {
                None => true,
                Some(b) => release_version(b) <= release_version(r),
            };
            if newer {
                best = Some(r);
            }
        }
        i = i + 1;
    }
    assert(rels@.subrange(0, rels@.len() as int) =~= rels@);
    best
}

pub open spec fn word_deployed() -> Seq<char> {
    seq!['d', 'e', 'p', 'l', 'o', 'y', 'e', 'd']
}

/// What is wrong with the chart `chart`, if anything: no release, or a latest
/// release whose status is not `deployed`.
pub open spec fn chart_failure(rels: Seq<HelmRelease>, chart: Seq<char>) -> Option<(bool, Seq<char>)> {
    match latest_release(rels, chart) {
        None => Some((true, chart)),
        Some(r) => if r.status is Some && r.status->Some_0@ == word_deployed() {
            None
        } else {
            Some((false, chart))
        },
    }
}

pub open spec fn failure_view(f: ChartFailure) -> (bool, Seq<char>) {
    match f {
        ChartFailure::Missing(c) => (true, c@),
        ChartFailure::DeploymentFailed(c) => (false, c@),
    }
}

/// What is wrong with one chart given the releases found.
pub fn check_chart(releases: &Vec<HelmRelease>, chart: &str) -> (r: Option<ChartFailure>)
    ensures
        r is None <==> chart_failure(releases@, chart@) is None,
        r is Some ==> failure_view(r->Some_0) == chart_failure(releases@, chart@)->Some_0,
{
    proof {
        reveal_strlit("deployed");
        assert("deployed"@ =~= word_deployed());
    }
    match latest_of(releases, chart) {
        None => Some(ChartFailure::Missing(chart.to_owned())),
        Some(rel) => {
            let ok = match &rel.status {
                Some(st) => same_text(st.as_str(), "deployed"),
                None => false,
            };
            if ok {
                None
            } else {
                Some(ChartFailure::DeploymentFailed(chart.to_owned()))
            }
        },
    }
}

/// The charts that a cluster needs before challenges can be deployed on it.
pub fn expected_charts() -> (r: Vec<String>)
    ensures
        r@.len() == 3,
        r@[0]@ == "ingress-nginx"@,
        r@[1]@ == "cert-manager"@,
        r@[2]@ == "external-dns"@,
{
    vec!["ingress-nginx".to_owned(), "cert-manager".to_owned(), "external-dns".to_owned()]
}

/// What is wrong with each needed chart, in the order of `charts`: an empty
/// list where the cluster is set up.
pub fn check_setup_releases(releases: &Vec<HelmRelease>, charts: &Vec<String>) -> (r: Vec<ChartFailure>)
    ensures
        r@.map_values(|f: ChartFailure| failure_view(f)) == chart_failures(releases@, crate::challenge::strs(charts@)),
{
    let mut out: Vec<ChartFailure> = Vec::new();
    let mut i: usize = 0;
    while i < charts.len()
        invariant
            i <= charts@.len(),
            out@.map_values(|f: ChartFailure| failure_view(f)) == chart_failures(
                releases@,
                crate::challenge::strs(charts@).subrange(0, i as int),
            ),
        decreases charts.len() - i,
    {
        assert(crate::challenge::strs(charts@).subrange(0, i + 1).drop_last() =~= crate::challenge::strs(
            charts@,
        ).subrange(0, i as int));
        let ghost before = out@;
        match check_chart(releases, charts[i].as_str()) {
            Some(f) => {
                out.push(f);
                assert(out@.map_values(|f: ChartFailure| failure_view(f)) =~= before.map_values(
                    |f: ChartFailure| failure_view(f),
                ).push(failure_view(f)));
            },
            None => {},
        }
        i = i + 1;
    }
    assert(crate::challenge::strs(charts@).subrange(0, charts@.len() as int) =~= crate::challenge::strs(
        charts@,
    ));
    out
}

/// The failures of the charts `charts`, in order.
pub open spec fn chart_failures(rels: Seq<HelmRelease>, charts: Seq<Seq<char>>) -> Seq<(bool, Seq<char>)>
    decreases charts.len(),
{
    if charts.len() == 0 {
        Seq::empty()
    } else {
        let rest = chart_failures(rels, charts.drop_last());
        match chart_failure(rels, charts.last()) {
            Some(f) => rest.push(f),
            None => rest,
        }
    }
}

/// How and where a challenge was exposed.
#[derive(Clone, Debug, PartialEq)]
pub struct KubeDeployResult {
    pub exposed: Vec<PodDeployResult>,
}

/// How one pod is reached: over HTTP on a domain, or on a TCP port.
#[derive(Clone, Debug, PartialEq)]
pub enum PodDeployResult {
    Http { domain: String },
    Tcp { port: usize },
}

/// How a readiness wait ended.
#[derive(Clone, Debug, PartialEq)]
pub enum WaitOutcome {
    Ready,
    TimedOut,
    /// The status could not be fetched.
    StatusFailed(String),
}

/// Errors of deploying a challenge.
#[derive(Clone, Debug, PartialEq)]
pub enum DeployError {
    /// A resource did not become ready in time.
    Timeout { kind: ManifestKind, challenge: String, pod: Option<String> },
    /// A resource's status could not be fetched.
    Status { kind: ManifestKind, challenge: String, pod: Option<String>, message: String },
    /// The cluster's API server refused or failed the request.
    ClusterApi { message: String },
    /// The cluster could not be reached, or another local failure.
    Transport { message: String },
}

/// What a readiness wait of `step` for the challenge in `challenge` means: a
/// timeout and a failed status fetch are distinct errors, each naming the
/// resource kind, the challenge and the pod.
pub fn wait_result(step: &DeployStep, challenge: &str, outcome: WaitOutcome) -> (r: Result<(), DeployError>)
    ensures
        outcome is Ready <==> r is Ok,
        outcome is TimedOut <==> r matches Err(DeployError::Timeout { .. }),
        outcome is StatusFailed <==> r matches Err(DeployError::Status { .. }),
        r matches Err(DeployError::Timeout { kind, challenge: c, pod }) ==> kind == step.kind && c@
            == challenge@ && pod == step.pod,
        r matches Err(DeployError::Status { kind, challenge: c, pod, message }) ==> kind == step.kind
            && c@ == challenge@ && pod == step.pod && outcome == WaitOutcome::StatusFailed(message),
{
    match outcome {
        WaitOutcome::Ready => Ok(()),
        WaitOutcome::TimedOut => Err(
            DeployError::Timeout { kind: step.kind, challenge: challenge.to_owned(), pod: clone_pod(&step.pod) },
        ),
        WaitOutcome::StatusFailed(message) => Err(
            DeployError::Status {
                kind: step.kind,
                challenge: challenge.to_owned(),
                pod: clone_pod(&step.pod),
                message,
            },
        ),
    }
}

fn clone_pod(p: &Option<String>) -> (r: Option<String>)
    ensures
        r == *p,
{
    match p {
        Some(s) => Some(s.clone()),
        None => None,
    }
}

/// What happened last while deploying a challenge.
#[derive(Clone, Debug, PartialEq)]
pub enum DeployEvent {
    /// Nothing yet.
    Start,
    /// The manifest of the current step was applied.
    Applied,
    /// Applying failed; `cluster` says whether the API server itself
    /// answered with the error (else it could not be reached).
    ApplyFailed { cluster: bool, message: String },
    /// The wait on the current step ended.
    WaitEnded(WaitOutcome),
}

/// What to do next.
#[derive(Clone, Debug, PartialEq)]
pub enum DeployAction {
    /// Apply the manifest of step `0`.
    Apply(usize),
    /// Wait on what step `0` created, within its policy.
    Wait(usize, WaitPolicy),
    /// Every step is done.
    Done,
    /// Stop with this error.
    Fail(DeployError),
}

/// The action after step `at` is through: the next step, or done.
pub open spec fn after(plan_len: int, at: int) -> DeployAction {
    if at + 1 < plan_len {
        DeployAction::Apply((at + 1) as usize)
    } else {
        DeployAction::Done
    }
}

/// The next action of a challenge's deploy, at step `at` of `plan`, after
/// `event`. Each step is applied, then waited on unless its policy says not
/// to, and only then is the next step applied; the first failure stops the
/// deploy, an error of the API server apart from one of reaching it.
pub fn next_deploy_action(plan: &Vec<DeployStep>, challenge: &str, at: usize, event: DeployEvent) -> (r:
    DeployAction)
    requires
        event is Start || at < plan@.len(),
    ensures
        event is Start || event is Applied ==> r == progress(plan@, at as int, event),
        event matches DeployEvent::ApplyFailed { cluster, message } ==> (if cluster {
            r matches DeployAction::Fail(DeployError::ClusterApi { message: m }) && m == message
        } else {
            r matches DeployAction::Fail(DeployError::Transport { message: m }) && m == message
        }),
        event == DeployEvent::WaitEnded(WaitOutcome::Ready) ==> r == progress(plan@, at as int, event),
        event == DeployEvent::WaitEnded(WaitOutcome::TimedOut) ==> r matches DeployAction::Fail(
            DeployError::Timeout { .. },
        ),
        event matches DeployEvent::WaitEnded(WaitOutcome::StatusFailed(_)) ==> r matches DeployAction::Fail(
            DeployError::Status { .. },
        ),
{
    match event {
        DeployEvent::Start => {
            if plan.len() > 0 {
                DeployAction::Apply(0)
            } else {
                DeployAction::Done
            }
        },
        DeployEvent::Applied => {
            if plan[at].wait == WaitPolicy::NoWait {
                if at < plan.len() - 1 {
                    DeployAction::Apply(at + 1)
                } else {
                    DeployAction::Done
                }
            } else {
                DeployAction::Wait(at, plan[at].wait)
            }
        },
        DeployEvent::ApplyFailed { cluster, message } => {
            if cluster {
                DeployAction::Fail(DeployError::ClusterApi { message })
            } else {
                DeployAction::Fail(DeployError::Transport { message })
            }
        },
        DeployEvent::WaitEnded(outcome) => match wait_result(&plan[at], challenge, outcome) {
            Ok(()) => {
                if at < plan.len() - 1 {
                    DeployAction::Apply(at + 1)
                } else {
                    DeployAction::Done
                }
            },
            Err(e) => DeployAction::Fail(e),
        },
    }
}

/// A step that is waited on holds back the next one: once the namespace,
/// the first step of any plan from `deploy_plan`, is applied, the next action
/// is to wait on it for five minutes at most, and the next step is applied only
/// after that wait ended ready.
pub proof fn lemma_namespace_ready_first(pods: Seq<Pod>, plan: Seq<DeployStep>)
    requires
        plan.map_values(|s: DeployStep| step_view(s)) == deploy_steps(pods),
    ensures
        plan.len() >= 2,
        plan[0].kind == ManifestKind::Namespace,
        progress(plan, 0, DeployEvent::Applied) == DeployAction::Wait(0, WaitPolicy::Within(READY_TIMEOUT_SECS)),
        progress(plan, 0, DeployEvent::WaitEnded(WaitOutcome::Ready)) == DeployAction::Apply(1),
{
    let steps = deploy_steps(pods);
    assert(steps.len() == 2 + pods_steps(pods).len());
    assert(steps[0] == (ManifestKind::Namespace, None::<Seq<char>>, WaitPolicy::Within(READY_TIMEOUT_SECS)));
    assert(plan.len() == plan.map_values(|s: DeployStep| step_view(s)).len());
    assert(plan.map_values(|s: DeployStep| step_view(s))[0] == step_view(plan[0]));
}

/// The next action after an event that is not a failure.
pub open spec fn progress(plan: Seq<DeployStep>, at: int, event: DeployEvent) -> DeployAction {
    match event {
        DeployEvent::Start => if plan.len() > 0 {
            DeployAction::Apply(0)
        } else {
            DeployAction::Done
        },
        DeployEvent::Applied => if plan[at].wait == WaitPolicy::NoWait {
            after(plan.len() as int, at)
        } else {
            DeployAction::Wait(at as usize, plan[at].wait)
        },
        _ => after(plan.len() as int, at),
    }
}

} // verus!
