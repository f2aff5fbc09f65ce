use beavercds::challenge::{
    category_from_dir, coerce_env, env_to_map, BuildObject, ChallengeConfig, ChallengeError, ExposeType, FlagType,
    ImageSource, ListOrMap, Pod, PortConfig,
};
use beavercds::config::{
    enabled_challenges, get_challenges, has_unique_keys, validate_deploy, get_config, get_profile_config, get_profile_deploy,
    ChallengePoints, ConfigError, Context, Defaults, ProfileConfig, ProfileDeploy, RcdsConfig,
    Registry, Resource, S3Config, UserPass,
};
use beavercds::deploy::{
    check_setup_releases, deploy_plan, next_deploy_action, DeployAction, DeployEvent, expected_charts, is_ready, parse_label_number,
    pull_secret_auth, split_ports, wait_result, ChartFailure, DeployError, DeployStep,
    DeploymentCondition, HelmRelease, LoadBalancerPoint, ManifestKind, ResourceStatus,
    WaitOutcome, WaitPolicy,
};
use beavercds::frontend::check;
use beavercds::publish::{bucket_key, collect_uploads, plan_uploads, public_url, PublishError};
use beavercds::builder::{BuildResult, TagWithSource};

fn port(internal: i64, expose: ExposeType) -> PortConfig {
    PortConfig { internal, expose }
}

fn pod(name: &str, ports: Vec<PortConfig>) -> Pod {
    Pod {
        name: name.into(),
        image_source: ImageSource::Image("nginx".into()),
        env: ListOrMap::Mapping(vec![]),
        resources: Some(Resource { cpu: 1, memory: "200Mi".into() }),
        replicas: 1,
        ports,
        volume: None,
    }
}

fn challenge(dir: &str, pods: Vec<Pod>) -> ChallengeConfig {
    ChallengeConfig {
        name: "test".into(),
        author: "nobody".into(),
        description: "d".into(),
        category: "web".into(),
        directory: dir.into(),
        difficulty: 1,
        flag: FlagType::RawString("flag{x}".into()),
        provide: vec![],
        pods,
    }
}

fn profile(domain: &str) -> ProfileConfig {
    ProfileConfig {
        frontend_url: "https://frontend.example".into(),
        frontend_token: "secretsecretsecret".into(),
        challenges_domain: domain.into(),
        kubeconfig: None,
        kubecontext: "testcluster".into(),
        s3: S3Config {
            bucket_name: "asset_testing".into(),
            endpoint: "s3.example".into(),
            region: "us-fake-1".into(),
            access_key: "accesskey".into(),
            secret_key: "secretkey".into(),
        },
    }
}

fn config() -> RcdsConfig {
    RcdsConfig {
        flag_regex: "test{[a-zA-Z_]+}".into(),
        registry: Registry {
            domain: "registry.example/test".into(),
            tag_format: "{{domain}}/{{challenge}}-{{container}}:{{profile}}".into(),
            build: UserPass { user: "admin".into(), pass: "notrealcreds".into() },
            cluster: UserPass { user: "cluster".into(), pass: "alsofake".into() },
        },
        defaults: Defaults { difficulty: 1, resources: Resource { cpu: 1, memory: "500M".into() } },
        deploy: vec![(
            "testing".into(),
            ProfileDeploy {
                challenges: vec![("misc/foo".into(), true), ("web/bar".into(), false), ("pwn/gone".into(), true), ("web/baz".into(), true)],
            },
        )],
        profiles: vec![("testing".into(), profile("chals.frontend.example"))],
        points: vec![ChallengePoints { difficulty: 1, min: 0, max: 1337 }],
    }
}

#[test]
fn profile_lookups() {
    let c = config();
    assert_eq!(get_profile_config(&c, "testing").unwrap().challenges_domain, "chals.frontend.example");
    assert_eq!(get_profile_config(&c, "nope"), Err(ConfigError::ProfileNotFound { name: "nope".into() }));
    assert_eq!(get_profile_deploy(&c, "testing").unwrap().challenges.len(), 4);
    assert_eq!(get_profile_deploy(&c, "nope"), Err(ConfigError::ProfileNotDeployed { name: "nope".into() }));
    assert_eq!(check(&c, "testing"), Ok(()));
    assert!(check(&c, "other").is_err());
}

#[test]
fn enabled_in_deploy_order() {
    let ctx = Context {
        config: config(),
        challenges: vec![challenge("web/baz", vec![]), challenge("web/bar", vec![]), challenge("misc/foo", vec![])],
    };
    assert_eq!(get_config(&ctx).flag_regex, "test{[a-zA-Z_]+}");
    assert_eq!(get_challenges(&ctx).len(), 3);
    let dirs: Vec<String> = enabled_challenges(&ctx, "testing").unwrap().iter().map(|c| c.directory.clone()).collect();
    assert_eq!(dirs, vec!["misc/foo".to_string(), "web/baz".to_string()]);
    assert!(enabled_challenges(&ctx, "prod").is_err());
}

#[test]
fn challenge_pod_env() {
    let list = vec!["FOO=this".to_string(), "BAR=that".to_string()];
    assert_eq!(
        env_to_map(&list).unwrap(),
        vec![("FOO".to_string(), "this".to_string()), ("BAR".to_string(), "that".to_string())]
    );
    let kept = vec![("FOO".to_string(), "this".to_string())];
    assert_eq!(coerce_env(ListOrMap::Mapping(kept.clone())), Ok(ListOrMap::Mapping(kept)));
}

#[test]
fn env_split_and_override() {
    let list = vec!["A=1".to_string(), "B=x=y".to_string(), "A=2".to_string(), "C=".to_string()];
    assert_eq!(
        env_to_map(&list).unwrap(),
        vec![("A".to_string(), "2".to_string()), ("B".to_string(), "x=y".to_string()), ("C".to_string(), String::new())]
    );
}

#[test]
fn challenge_pod_bad_env() {
    let r = coerce_env(ListOrMap::List(vec!["FOO".to_string()]));
    assert_eq!(r, Err(ChallengeError::MalformedEnv { var: "FOO".into() }));
}

#[test]
fn deploy_sequence() {
    let c = challenge(
        "web/bar",
        vec![
            pod("app", vec![port(80, ExposeType::Http("bar.chals.example".into())), port(1337, ExposeType::Tcp(31337))]),
            pod("db", vec![]),
            pod("nc", vec![port(9000, ExposeType::Tcp(9000))]),
        ],
    );
    let w = WaitPolicy::Within(300);
    let step = |kind, pod: Option<&str>, wait| DeployStep { kind, pod: pod.map(|p| p.to_string()), wait };
    assert_eq!(
        deploy_plan(&c),
        vec![
            step(ManifestKind::Namespace, None, w),
            step(ManifestKind::PullSecret, None, WaitPolicy::NoWait),
            step(ManifestKind::Deployment, Some("app"), w),
            step(ManifestKind::TcpService, Some("app"), w),
            step(ManifestKind::HttpIngress, Some("app"), w),
            step(ManifestKind::Deployment, Some("db"), w),
            step(ManifestKind::Deployment, Some("nc"), w),
            step(ManifestKind::TcpService, Some("nc"), w),
        ]
    );
}

#[test]
fn ports_partition() {
    let ports = vec![
        port(80, ExposeType::Http("a.example".into())),
        port(22, ExposeType::Tcp(2222)),
        port(443, ExposeType::Http("b.example".into())),
    ];
    let (tcp, http) = split_ports(&ports);
    assert_eq!(tcp, vec![(22, 2222)]);
    assert_eq!(http, vec![(80, "a.example".to_string()), (443, "b.example".to_string())]);
}

#[test]
fn pull_secret_is_base64_of_user_and_pass() {
    let up = UserPass { user: "user".into(), pass: "pass".into() };
    assert_eq!(pull_secret_auth(&up), "dXNlcjpwYXNz");
    let other = UserPass { user: "cluster".into(), pass: "alsofake".into() };
    assert_eq!(pull_secret_auth(&other), "Y2x1c3RlcjphbHNvZmFrZQ==");
}

fn lb(hostname: Option<&str>, ip: Option<&str>) -> LoadBalancerPoint {
    LoadBalancerPoint { hostname: hostname.map(|s| s.to_string()), ip: ip.map(|s| s.to_string()) }
}

#[test]
fn readiness_by_kind() {
    let cluster_ip = ResourceStatus::Service { service_type: Some("ClusterIP".into()), points: vec![] };
    assert!(is_ready(&cluster_ip));
    let pending = ResourceStatus::Service { service_type: Some("LoadBalancer".into()), points: vec![] };
    assert!(!is_ready(&pending));
    let partial = ResourceStatus::Service { service_type: Some("LoadBalancer".into()), points: vec![lb(Some("h"), None), lb(None, None)] };
    assert!(!is_ready(&partial));
    let assigned = ResourceStatus::Service { service_type: Some("LoadBalancer".into()), points: vec![lb(Some("h"), None), lb(None, Some("10.0.0.1"))] };
    assert!(is_ready(&assigned));
    assert!(is_ready(&ResourceStatus::Pod { phase: Some("Running".into()) }));
    assert!(!is_ready(&ResourceStatus::Pod { phase: Some("Pending".into()) }));
    assert!(!is_ready(&ResourceStatus::Pod { phase: None }));
    let progressing = DeploymentCondition { status: "True".into(), reason: Some("ReplicaSetUpdated".into()) };
    let done = DeploymentCondition { status: "True".into(), reason: Some("NewReplicaSetAvailable".into()) };
    assert!(!is_ready(&ResourceStatus::Deployment { conditions: vec![progressing.clone()] }));
    assert!(is_ready(&ResourceStatus::Deployment { conditions: vec![progressing, done] }));
    assert!(!is_ready(&ResourceStatus::Ingress { points: vec![] }));
    assert!(is_ready(&ResourceStatus::Ingress { points: vec![lb(None, Some("1.2.3.4"))] }));
    assert!(is_ready(&ResourceStatus::Other));
}

#[test]
fn wait_outcomes() {
    let s = DeployStep { kind: ManifestKind::Deployment, pod: Some("app".into()), wait: WaitPolicy::Within(300) };
    assert_eq!(wait_result(&s, "web/bar", WaitOutcome::Ready), Ok(()));
    assert_eq!(
        wait_result(&s, "web/bar", WaitOutcome::TimedOut),
        Err(DeployError::Timeout { kind: ManifestKind::Deployment, challenge: "web/bar".into(), pod: Some("app".into()) })
    );
    assert_eq!(
        wait_result(&s, "web/bar", WaitOutcome::StatusFailed("403".into())),
        Err(DeployError::Status { kind: ManifestKind::Deployment, challenge: "web/bar".into(), pod: Some("app".into()), message: "403".into() })
    );
}

#[test]
fn label_numbers() {
    assert_eq!(parse_label_number("12"), Some(12));
    assert_eq!(parse_label_number("+3"), Some(3));
    assert_eq!(parse_label_number(""), None);
    assert_eq!(parse_label_number("+"), None);
    assert_eq!(parse_label_number("1a"), None);
    assert_eq!(parse_label_number("99999999999999999999999"), None);
    assert_eq!(parse_label_number(&usize::MAX.to_string()), Some(usize::MAX));
}

fn release(name: &str, version: &str, status: &str) -> HelmRelease {
    HelmRelease { name: Some(name.into()), version: Some(version.into()), status: Some(status.into()) }
}

#[test]
fn cluster_setup_check() {
    let releases = vec![
        release("ingress-nginx", "1", "failed"),
        release("ingress-nginx", "2", "deployed"),
        release("cert-manager", "3", "deployed"),
        release("cert-manager", "10", "failed"),
    ];
    assert_eq!(
        check_setup_releases(&releases, &expected_charts()),
        vec![ChartFailure::DeploymentFailed("cert-manager".into()), ChartFailure::Missing("external-dns".into())]
    );
    let good = vec![release("ingress-nginx", "1", "deployed"), release("cert-manager", "1", "deployed"), release("external-dns", "x", "deployed")];
    assert!(check_setup_releases(&good, &expected_charts()).is_empty());
}

#[test]
fn asset_keys_and_urls() {
    assert_eq!(bucket_key("misc/foo", "misc/foo/stuff.zip").unwrap(), "assets/misc/foo/stuff.zip");
    assert_eq!(bucket_key("misc/foo", "dir/"), Err(PublishError::NoFileName { path: "dir/".into() }));
    assert_eq!(
        public_url("ctf-bucket", "us-west-2", "assets/misc/foo/stuff.zip"),
        "https://ctf-bucket.s3.us-west-2.amazonaws.com/assets/misc/foo/stuff.zip"
    );
    let build = BuildResult { tags: vec![TagWithSource::Upstream("nginx".into())], assets: vec!["pwn/notsh/notsh.zip".into()] };
    let uploads = plan_uploads("pwn/notsh", "b", "r", &build).unwrap();
    assert_eq!(uploads.len(), 1);
    assert_eq!(uploads[0].key, "assets/pwn/notsh/notsh.zip");
    assert_eq!(uploads[0].url, "https://b.s3.r.amazonaws.com/assets/pwn/notsh/notsh.zip");
    let failed = PublishError::Upload { file: "x".into(), message: "denied".into() };
    assert_eq!(collect_uploads(vec![Ok("u1".into()), Err(failed.clone())]), Err(failed));
    assert_eq!(collect_uploads(vec![Ok("u1".into())]).unwrap().uploaded_asset_urls, vec!["u1".to_string()]);
}

#[test]
fn build_object_in_pod() {
    let p = Pod { image_source: ImageSource::Build(BuildObject::from_context("image/")), ..pod("x", vec![]) };
    assert!(matches!(p.image_source, ImageSource::Build(_)));
}

#[test]
fn deploy_state_machine() {
    let c = challenge("web/bar", vec![pod("app", vec![port(80, ExposeType::Http("bar.example".into()))])]);
    let plan = deploy_plan(&c);
    assert_eq!(plan.len(), 4);
    assert_eq!(next_deploy_action(&plan, "web/bar", 0, DeployEvent::Start), DeployAction::Apply(0));
    assert_eq!(next_deploy_action(&plan, "web/bar", 0, DeployEvent::Applied), DeployAction::Wait(0, WaitPolicy::Within(300)));
    assert_eq!(next_deploy_action(&plan, "web/bar", 0, DeployEvent::WaitEnded(WaitOutcome::Ready)), DeployAction::Apply(1));
    assert_eq!(next_deploy_action(&plan, "web/bar", 1, DeployEvent::Applied), DeployAction::Apply(2));
    assert_eq!(next_deploy_action(&plan, "web/bar", 2, DeployEvent::Applied), DeployAction::Wait(2, WaitPolicy::Within(300)));
    assert_eq!(next_deploy_action(&plan, "web/bar", 3, DeployEvent::WaitEnded(WaitOutcome::Ready)), DeployAction::Done);
    assert_eq!(
        next_deploy_action(&plan, "web/bar", 2, DeployEvent::WaitEnded(WaitOutcome::TimedOut)),
        DeployAction::Fail(DeployError::Timeout { kind: ManifestKind::Deployment, challenge: "web/bar".into(), pod: Some("app".into()) })
    );
    assert_eq!(
        next_deploy_action(&plan, "web/bar", 1, DeployEvent::ApplyFailed { cluster: true, message: "forbidden".into() }),
        DeployAction::Fail(DeployError::ClusterApi { message: "forbidden".into() })
    );
    assert_eq!(
        next_deploy_action(&plan, "web/bar", 1, DeployEvent::ApplyFailed { cluster: false, message: "refused".into() }),
        DeployAction::Fail(DeployError::Transport { message: "refused".into() })
    );
    assert_eq!(next_deploy_action(&vec![], "x", 0, DeployEvent::Start), DeployAction::Done);
}

#[test]
fn categories() {
    assert_eq!(category_from_dir("pwn/notsh"), Some("pwn".to_string()));
    assert_eq!(category_from_dir("chals/foo/test"), Some("foo".to_string()));
    assert_eq!(category_from_dir("test"), None);
}

#[test]
fn validate_reports_every_deploy_error() {
    let mut c = config();
    c.profiles.push(("prod".into(), profile("chals.example")));
    let chals = vec![challenge("misc/foo", vec![]), challenge("web/baz", vec![])];
    assert_eq!(
        validate_deploy(&c, &chals),
        vec![
            ConfigError::MissingChallenge { profile: "testing".into(), path: "web/bar".into() },
            ConfigError::MissingChallenge { profile: "testing".into(), path: "pwn/gone".into() },
            ConfigError::ProfileNotDeployed { name: "prod".into() },
        ]
    );
    let all = vec![challenge("misc/foo", vec![]), challenge("web/bar", vec![]), challenge("pwn/gone", vec![]), challenge("web/baz", vec![])];
    assert!(validate_deploy(&config(), &all).is_empty());
}

#[test]
fn unique_keys_check() {
    let mut c = config();
    assert!(has_unique_keys(&c));
    c.profiles.push(("testing".into(), profile("again")));
    assert!(!has_unique_keys(&c));
    let mut d = config();
    d.deploy[0].1.challenges.push(("misc/foo".into(), false));
    assert!(!has_unique_keys(&d));
}
