use beavercds::builder::{
    credentials_or_anonymous, engine_type_of, finish_build, flatten_assets, join_all, on_build_event,
    plan_pod_builds, split_image_tag, tags_of_jobs, tags_to_push, BuildError, BuildEvent,
    BuildResult, EngineType, PodJob, RegistryCredential, TagWithSource,
};
use beavercds::challenge::{
    default_difficulty, default_dockerfile, render_image_tag, BuildObject, ChallengeConfig,
    ChallengeError, FlagType, ImageSource, ListOrMap, Pod,
};
use beavercds::config::{default_tag_format, Registry, UserPass};

fn registry(template: &str) -> Registry {
    Registry {
        domain: "registry.io/myctf".into(),
        tag_format: template.into(),
        build: UserPass { user: "admin".into(), pass: "notrealcreds".into() },
        cluster: UserPass { user: "cluster".into(), pass: "alsofake".into() },
    }
}

fn pod(name: &str, source: ImageSource) -> Pod {
    Pod {
        name: name.into(),
        image_source: source,
        env: ListOrMap::Mapping(vec![]),
        resources: None,
        replicas: 1,
        ports: vec![],
        volume: None,
    }
}

fn challenge(dir: &str, pods: Vec<Pod>) -> ChallengeConfig {
    ChallengeConfig {
        name: "notsh".into(),
        author: "nobody".into(),
        description: "a test".into(),
        category: "pwn".into(),
        directory: dir.into(),
        difficulty: default_difficulty(),
        flag: FlagType::Text { text: "test{it-works}".into() },
        provide: vec![],
        pods,
    }
}

#[test]
fn default_tag_renders() {
    let t = render_image_tag(&default_tag_format(), "registry.io/myctf", "pwn-notsh", "main", "prod");
    assert_eq!(t.unwrap(), "registry.io/myctf/pwn-notsh-main:prod");
    let other = render_image_tag("{{domain}}:{{challenge}}-{{container}}", "registry.io/myctf", "pwn-notsh", "main", "prod");
    assert_eq!(other.unwrap(), "registry.io/myctf:pwn-notsh-main");
}

#[test]
fn tag_is_deterministic() {
    let a = render_image_tag(&default_tag_format(), "r.io", "web-x", "app", "staging").unwrap();
    let b = render_image_tag(&default_tag_format(), "r.io", "web-x", "app", "staging").unwrap();
    assert_eq!(a, b);
    for (d, c, p, f) in [("r2.io", "web-x", "app", "staging"), ("r.io", "web-y", "app", "staging"), ("r.io", "web-x", "db", "staging"), ("r.io", "web-x", "app", "prod")] {
        assert_ne!(render_image_tag(&default_tag_format(), d, c, p, f).unwrap(), a);
    }
}

#[test]
fn undefined_template_variable_is_an_error() {
    let r = render_image_tag("{{domain}}/{{nope}}", "r.io", "c", "p", "f");
    assert_eq!(r, Err(ChallengeError::TagTemplate { template: "{{domain}}/{{nope}}".into() }));
}

#[test]
fn slugs() {
    let c = challenge("Pwn/Not Sh", vec![]);
    assert_eq!(c.slugify_slash(), "pwn/not-sh");
    assert_eq!(c.slugify(), "pwn-not-sh");
    let d = challenge("  web/a \t b  ", vec![]);
    assert_eq!(d.slugify_slash(), "web/a-b");
}

#[test]
fn container_tags() {
    let c = challenge(
        "pwn/notsh",
        vec![pod("main", ImageSource::Build(BuildObject::from_context("."))), pod("db", ImageSource::Image("redis:7".into()))],
    );
    let reg = registry(&default_tag_format());
    assert_eq!(c.container_tag_for_pod(&reg, "prod", "main").unwrap(), "registry.io/myctf/pwn-notsh-main:prod");
    assert_eq!(c.container_tag_for_pod(&reg, "prod", "db").unwrap(), "redis:7");
    assert_eq!(
        c.container_tag_for_pod(&reg, "prod", "nope"),
        Err(ChallengeError::PodNotFound { pod: "nope".into() })
    );
}

#[test]
fn build_defaults() {
    let b = BuildObject::from_context("image/");
    assert_eq!(b.context, "image/");
    assert_eq!(b.dockerfile, "Dockerfile");
    assert!(b.args.is_empty());
    assert_eq!(default_dockerfile(), "Dockerfile");
    assert_eq!(default_difficulty(), 1);
}

#[test]
fn single_built_pod_with_push() {
    let c = challenge("pwn/notsh", vec![pod("main", ImageSource::Build(BuildObject::from_context("image")))]);
    let jobs = plan_pod_builds(&c, &registry(&default_tag_format()), "testing").unwrap();
    assert_eq!(
        jobs,
        vec![PodJob::Build {
            pod: "main".into(),
            tag: "registry.io/myctf/pwn-notsh-main:testing".into(),
            context: "pwn/notsh/image".into(),
            dockerfile: "Dockerfile".into(),
            args: vec![],
        }]
    );
    let built: Vec<Result<(), BuildError>> = vec![Ok(())];
    join_all(built).unwrap();
    let tags = tags_of_jobs(&jobs);
    assert_eq!(tags, vec![TagWithSource::Built("registry.io/myctf/pwn-notsh-main:testing".into())]);
    let pushes = tags_to_push(&tags);
    assert_eq!(pushes, vec!["registry.io/myctf/pwn-notsh-main:testing".to_string()]);
    let result = finish_build(&jobs, None);
    assert_eq!(result, BuildResult { tags, assets: vec![] });
    let extracted = finish_build(&jobs, Some(vec![vec!["pwn/notsh/a".to_string()], vec!["pwn/notsh/b.zip".to_string()]]));
    assert_eq!(extracted.assets, vec!["pwn/notsh/a".to_string(), "pwn/notsh/b.zip".to_string()]);
}

#[test]
fn upstream_images_are_never_pushed() {
    let tags = vec![
        TagWithSource::Upstream("nginx".into()),
        TagWithSource::Built("a:1".into()),
        TagWithSource::Upstream("redis".into()),
        TagWithSource::Built("b:1".into()),
    ];
    assert_eq!(tags_to_push(&tags), vec!["a:1".to_string(), "b:1".to_string()]);
}

#[test]
fn bad_template_stops_the_plan() {
    let c = challenge("pwn/notsh", vec![pod("main", ImageSource::Build(BuildObject::from_context(".")))]);
    let r = plan_pod_builds(&c, &registry("{{missing}}"), "p");
    assert!(matches!(r, Err(BuildError::Tag { .. })));
}

#[test]
fn fail_fast_returns_first_error() {
    let a = BuildError::Build { challenge: "a/one".into(), pod: "main".into(), message: "boom".into() };
    let results: Vec<Result<u32, BuildError>> = vec![Err(a.clone()), Ok(2)];
    assert_eq!(join_all(results), Err(a));
    let later = BuildError::Push { tag: "t".into(), message: "denied".into() };
    let mixed: Vec<Result<u32, BuildError>> = vec![Ok(1), Err(later.clone()), Err(BuildError::NoTag { image: "x".into() })];
    assert_eq!(join_all(mixed), Err(later));
    let ok: Vec<Result<u32, BuildError>> = vec![Ok(1), Ok(2)];
    assert_eq!(join_all(ok), Ok(vec![1, 2]));
}

#[test]
fn assets_flatten_in_order() {
    let lists = vec![vec!["a".to_string(), "b".to_string()], vec![], vec!["c".to_string()]];
    assert_eq!(flatten_assets(&lists), vec!["a".to_string(), "b".to_string(), "c".to_string()]);
}

#[test]
fn build_events() {
    assert_eq!(on_build_event("c", "p", BuildEvent::Log("Step 1/3".into())), Ok(Some("Step 1/3".into())));
    assert_eq!(
        on_build_event("c", "p", BuildEvent::ErrorDetail("no such file".into())),
        Err(BuildError::Build { challenge: "c".into(), pod: "p".into(), message: "no such file".into() })
    );
    assert_eq!(
        on_build_event("c", "p", BuildEvent::StreamError("reset".into())),
        Err(BuildError::Build { challenge: "c".into(), pod: "p".into(), message: "reset".into() })
    );
}

#[test]
fn image_tag_split() {
    assert_eq!(
        split_image_tag("localhost:5000/pwn-notsh-main:testing").unwrap(),
        ("localhost:5000/pwn-notsh-main".to_string(), "testing".to_string())
    );
    assert_eq!(split_image_tag("plain"), Err(BuildError::NoTag { image: "plain".into() }));
}

#[test]
fn credentials_soft_fail() {
    assert!(credentials_or_anonymous(None).is_empty());
    let c = RegistryCredential::UsernamePassword("u".into(), "p".into());
    assert_eq!(credentials_or_anonymous(Some(c.clone())), vec![("docker.io".to_string(), c)]);
}

#[test]
fn engine_kind() {
    assert_eq!(engine_type_of(&vec!["Engine".into(), "Podman Engine".into()]), EngineType::Podman);
    assert_eq!(engine_type_of(&vec!["Engine".into(), "containerd".into()]), EngineType::Docker);
}
