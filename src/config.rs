//! The global configuration: registry, defaults, deploy maps and profiles,
//! and the lookups made on it once it has been loaded.
use vstd::prelude::*;

use crate::challenge::ChallengeConfig;
use crate::text::same_text;

verus! {

/// A user name and password for a registry.
#[derive(Clone, Debug, PartialEq)]
pub struct UserPass {
    pub user: String,
    pub pass: String,
}

/// Resource limits of a pod.
#[derive(Clone, Debug, PartialEq)]
pub struct Resource {
    pub cpu: i64,
    pub memory: String,
}

/// Where images are pushed, how their tags are formed, and the logins used.
#[derive(Clone, Debug, PartialEq)]
pub struct Registry {
    /// Base of every image reference, such as `registry.io/myctf`.
    pub domain: String,
    /// Template of image tags, with the fields `domain`, `challenge`,
    /// `container` and `profile`.
    pub tag_format: String,
    /// Login used to push images while building.
    pub build: UserPass,
    /// Login the cluster uses to pull images.
    pub cluster: UserPass,
}

#[derive(Clone, Debug, PartialEq)]
pub struct Defaults {
    pub difficulty: i64,
    pub resources: Resource,
}

/// Which challenge directories a profile deploys: each key at most once.
#[derive(Clone, Debug, PartialEq)]
pub struct ProfileDeploy {
    pub challenges: Vec<(String, bool)>,
}

#[derive(Clone, Debug, PartialEq)]
pub struct S3Config {
    pub bucket_name: String,
    pub endpoint: String,
    pub region: String,
    pub access_key: String,
    pub secret_key: String,
}

/// One deployment environment.
#[derive(Clone, Debug, PartialEq)]
pub struct ProfileConfig {
    pub frontend_url: String,
    pub frontend_token: String,
    pub challenges_domain: String,
    pub kubeconfig: Option<String>,
    pub kubecontext: String,
    pub s3: S3Config,
}

#[derive(Clone, Debug, PartialEq)]
pub struct ChallengePoints {
    pub difficulty: i64,
    pub min: i64,
    pub max: i64,
}

/// The whole configuration. `deploy` and `profiles` are keyed by profile
/// name; a lookup takes the first entry of a name.
#[derive(Clone, Debug, PartialEq)]
pub struct RcdsConfig {
    pub flag_regex: String,
    pub registry: Registry,
    pub defaults: Defaults,
    pub deploy: Vec<(String, ProfileDeploy)>,
    pub profiles: Vec<(String, ProfileConfig)>,
    pub points: Vec<ChallengePoints>,
}

/// Configuration errors.
#[derive(Clone, Debug, PartialEq)]
pub enum ConfigError {
    /// No profile of this name under `profiles`.
    ProfileNotFound { name: String },
    /// No profile of this name under `deploy`.
    ProfileNotDeployed { name: String },
    /// The deploy map of `profile` lists `path`, where no challenge is.
    MissingChallenge { profile: String, path: String },
}

/// A configuration error, as plain values: its kind (0 for an unknown
/// profile, 1 for a profile with no deploy map, 2 for a missing challenge),
/// the profile, and the path.
pub open spec fn error_view(e: ConfigError) -> (int, Seq<char>, Seq<char>) {
    match e {
        ConfigError::ProfileNotFound { name } => (0, name@, Seq::empty()),
        ConfigError::ProfileNotDeployed { name } => (1, name@, Seq::empty()),
        ConfigError::MissingChallenge { profile, path } => (2, profile@, path@),
    }
}

/// No two entries of `s` have the same key.
pub open spec fn keys_unique<T>(s: Seq<(String, T)>) -> bool {
    forall|i: int, j: int| 0 <= i < j < s.len() ==> s[i].0@ != s[j].0@
}

impl RcdsConfig {
    /// The maps of the configuration hold each key once: profile names
    /// under `deploy` and under `profiles`, and directories in each deploy
    /// map.
    pub open spec fn wf(&self) -> bool {
        &&& keys_unique(self.deploy@)
        &&& keys_unique(self.profiles@)
        &&& forall|i: int|
            0 <= i < self.deploy@.len() ==> keys_unique(#[trigger] self.deploy@[i].1.challenges@)
    }
}

fn unique_keys<T>(entries: &Vec<(String, T)>) -> (r: bool)
    ensures
        r == keys_unique(entries@),
{
    let mut i: usize = 0;
    while i < entries.len()
        invariant
            i <= entries@.len(),
            forall|a: int, b: int| 0 <= a < b < entries@.len() && a < i ==> entries@[a].0@ != entries@[b].0@,
        decreases entries.len() - i,
    {
        let mut j: usize = i + 1;
        while j < entries.len()
            invariant
                i < entries@.len(),
                i + 1 <= j <= entries@.len(),
                forall|a: int, b: int| 0 <= a < b < entries@.len() && a < i ==> entries@[a].0@ != entries@[b].0@,
                forall|b: int| i < b < j ==> entries@[i as int].0@ != entries@[b].0@,
            decreases entries.len() - j,
        {
            if same_text(entries[i].0.as_str(), entries[j].0.as_str()) {
                return false;
            }
            j = j + 1;
        }
        i = i + 1;
    }
    true
}

/// Whether every map of `config` holds each key once.
pub fn has_unique_keys(config: &RcdsConfig) -> (r: bool)
    ensures
        r == config.wf(),
{
    if !unique_keys(&config.deploy) || !unique_keys(&config.profiles) {
        return false;
    }
    let mut i: usize = 0;
    while i < config.deploy.len()
        invariant
            i <= config.deploy@.len(),
            forall|k: int| 0 <= k < i ==> keys_unique(#[trigger] config.deploy@[k].1.challenges@),
        decreases config.deploy.len() - i,
    {
        if !unique_keys(&config.deploy[i].1.challenges) {
            return false;
        }
        i = i + 1;
    }
    true
}

/// In a well-formed configuration, the profile that a lookup finds is the
/// only one of its name.
pub proof fn lemma_lookup_unique(config: RcdsConfig, i: int, j: int)
    requires
        config.wf(),
        0 <= i < config.profiles@.len(),
        0 <= j < config.profiles@.len(),
        config.profiles@[i].0@ == config.profiles@[j].0@,
    ensures
        i == j,
{
    if i < j {
        assert(config.profiles@[i].0@ != config.profiles@[j].0@);
    } else if j < i {
        assert(config.profiles@[j].0@ != config.profiles@[i].0@);
    }
}

/// Some entry of `s` has the key `k`.
pub open spec fn has_key<T>(s: Seq<(String, T)>, k: Seq<char>) -> bool {
    exists|i: int| 0 <= i < s.len() && s[i].0@ == k
}

/// The index of the first entry of `entries` whose key is `key`.
pub fn find_key<T>(entries: &Vec<(String, T)>, key: &str) -> (r: Option<usize>)
    ensures
        r is Some ==> r->Some_0 < entries@.len() && entries@[r->Some_0 as int].0@ == key@,
        r is Some ==> forall|j: int| 0 <= j < r->Some_0 ==> entries@[j].0@ != key@,
        r is None <==> !has_key(entries@, key@),
{
    let mut i: usize = 0;
    while i < entries.len()
        invariant
            i <= entries@.len(),
            forall|j: int| 0 <= j < i ==> entries@[j].0@ != key@,
        decreases entries.len() - i,
    {
        if same_text(entries[i].0.as_str(), key) {
            return Some(i);
        }
        i = i + 1;
    }
    None
}

/// Settings of the profile `profile_name`.
pub fn get_profile_config<'a>(config: &'a RcdsConfig, profile_name: &str) -> (r: Result<
    &'a ProfileConfig,
    ConfigError,
>)
    ensures
        r is Ok <==> has_key(config.profiles@, profile_name@),
        r is Ok ==> exists|i: int|
            0 <= i < config.profiles@.len() && config.profiles@[i].0@ == profile_name@
                && *r->Ok_0 == config.profiles@[i].1,
        r is Err ==> r->Err_0 is ProfileNotFound && r->Err_0->ProfileNotFound_name@ == profile_name@,
{
    match find_key(&config.profiles, profile_name) {
        Some(i) => Ok(&config.profiles[i].1),
        None => Err(ConfigError::ProfileNotFound { name: profile_name.to_owned() }),
    }
}

/// The deploy map of the profile `profile_name`.
pub fn get_profile_deploy<'a>(config: &'a RcdsConfig, profile_name: &str) -> (r: Result<
    &'a ProfileDeploy,
    ConfigError,
>)
    ensures
        r is Ok <==> has_key(config.deploy@, profile_name@),
        r is Ok ==> exists|i: int|
            0 <= i < config.deploy@.len() && config.deploy@[i].0@ == profile_name@
                && *r->Ok_0 == config.deploy@[i].1,
        r is Err ==> r->Err_0 is ProfileNotDeployed && r->Err_0->ProfileNotDeployed_name@
            == profile_name@,
{
    match find_key(&config.deploy, profile_name) {
        Some(i) => Ok(&config.deploy[i].1),
        None => Err(ConfigError::ProfileNotDeployed { name: profile_name.to_owned() }),
    }
}

/// The tag template used when the registry sets none.
pub fn default_tag_format() -> (r: String)
    ensures
        r@ == seq![
            '{', '{', 'd', 'o', 'm', 'a', 'i', 'n', '}', '}', '/', '{', '{', 'c', 'h', 'a', 'l',
            'l', 'e', 'n', 'g', 'e', '}', '}', '-', '{', '{', 'c', 'o', 'n', 't', 'a', 'i', 'n',
            'e', 'r', '}', '}', ':', '{', '{', 'p', 'r', 'o', 'f', 'i', 'l', 'e', '}', '}'
        ],
{
    let s = "{{domain}}/{{challenge}}-{{container}}:{{profile}}".to_owned();
    proof {
        reveal_strlit("{{domain}}/{{challenge}}-{{container}}:{{profile}}");
    }
    s
}

/// The configuration and the challenges, loaded once per run and shared by
/// every step.
pub struct Context {
    pub config: RcdsConfig,
    pub challenges: Vec<ChallengeConfig>,
}

/// The configuration of the run.
pub fn get_config(ctx: &Context) -> (r: &RcdsConfig)
    ensures
        *r == ctx.config,
{
    &ctx.config
}

/// The challenges of the run.
pub fn get_challenges(ctx: &Context) -> (r: &Vec<ChallengeConfig>)
    ensures
        *r == ctx.challenges,
{
    &ctx.challenges
}

/// The first challenge of `chals` whose directory is `dir`.
pub open spec fn challenge_at(chals: Seq<ChallengeConfig>, dir: Seq<char>) -> Option<ChallengeConfig>
    decreases chals.len(),
{
    if chals.len() == 0 {
        None
    } else if chals[0].directory@ == dir {
        Some(chals[0])
    } else {
        challenge_at(chals.drop_first(), dir)
    }
}

/// For each directory switched on in `deploy`, in order, the challenge found
/// there; directories with no challenge are passed over.
pub open spec fn enabled_in(deploy: Seq<(String, bool)>, chals: Seq<ChallengeConfig>) -> Seq<
    ChallengeConfig,
>
    decreases deploy.len(),
{
    if deploy.len() == 0 {
        Seq::empty()
    } else {
        let rest = enabled_in(deploy.drop_last(), chals);
        let (dir, on) = deploy.last();
        if on && challenge_at(chals, dir@) is Some {
            rest.push(challenge_at(chals, dir@)->Some_0)
        } else {
            rest
        }
    }
}

fn find_challenge<'a>(chals: &'a Vec<ChallengeConfig>, dir: &str) -> (r: Option<&'a ChallengeConfig>)
    ensures
        r is Some <==> challenge_at(chals@, dir@) is Some,
        r is Some ==> *r->Some_0 == challenge_at(chals@, dir@)->Some_0,
{
    let mut i: usize = 0;
    assert(chals@.subrange(0, chals@.len() as int) =~= chals@);
    while i < chals.len()
        invariant
            i <= chals@.len(),
            challenge_at(chals@, dir@) == challenge_at(chals@.subrange(i as int, chals@.len() as int), dir@),
        decreases chals.len() - i,
    {
        assert(chals@.subrange(i as int, chals@.len() as int).drop_first() =~= chals@.subrange(
            i + 1,
            chals@.len() as int,
        ));
        if same_text(chals[i].directory.as_str(), dir) {
            return Some(&chals[i]);
        }
        i = i + 1;
    }
    None
}

/// The challenges that the profile `profile_name` deploys, in the order of its
/// deploy map.
pub fn enabled_challenges<'a>(ctx: &'a Context, profile_name: &str) -> (r: Result<
    Vec<&'a ChallengeConfig>,
    ConfigError,
>)
    ensures
        r is Ok <==> has_key(ctx.config.deploy@, profile_name@),
        r is Ok ==> exists|i: int|
            0 <= i < ctx.config.deploy@.len() && ctx.config.deploy@[i].0@ == profile_name@
                && r->Ok_0@.map_values(|c: &ChallengeConfig| *c) == enabled_in(
                ctx.config.deploy@[i].1.challenges@,
                ctx.challenges@,
            ),
        r is Err ==> r->Err_0 is ProfileNotDeployed,
{
    let deploy = get_profile_deploy(&ctx.config, profile_name)?;
    let ghost entries = deploy.challenges@;
    let mut out: Vec<&'a ChallengeConfig> = Vec::new();
    let mut k: usize = 0;
    while k < deploy.challenges.len()
        invariant
            k <= entries.len(),
            entries == deploy.challenges@,
            out@.map_values(|c: &ChallengeConfig| *c) == enabled_in(
                entries.subrange(0, k as int),
                ctx.challenges@,
            ),
        decreases deploy.challenges.len() - k,
    {
        assert(entries.subrange(0, k + 1).drop_last() =~= entries.subrange(0, k as int));
        if deploy.challenges[k].1 {
            match find_challenge(&ctx.challenges, deploy.challenges[k].0.as_str()) {
                Some(c) => {
                    let ghost before = out@;
                    out.push(c);
                    assert(out@.map_values(|c: &ChallengeConfig| *c) =~= before.map_values(
                        |c: &ChallengeConfig| *c,
                    ).push(*c));
                },
                None => {},
            }
        }
        k = k + 1;
    }
    assert(entries.subrange(0, entries.len() as int) =~= entries);
    Ok(out)
}

/// The deploy map of the first entry of `deploy` named `name`.
pub open spec fn deploy_for(deploy: Seq<(String, ProfileDeploy)>, name: Seq<char>) -> Option<ProfileDeploy>
    decreases deploy.len(),
{
    if deploy.len() == 0 {
        None
    } else if deploy[0].0@ == name {
        Some(deploy[0].1)
    } else {
        deploy_for(deploy.drop_first(), name)
    }
}

/// The paths of `entries`, switched on or off, where no challenge of
/// `chals` is, in order.
pub open spec fn missing_paths(profile: Seq<char>, entries: Seq<(String, bool)>, chals: Seq<ChallengeConfig>) -> Seq<
    (int, Seq<char>, Seq<char>),
>
    decreases entries.len(),
{
    if entries.len() == 0 {
        Seq::empty()
    } else {
        let rest = missing_paths(profile, entries.drop_last(), chals);
        if challenge_at(chals, entries.last().0@) is None {
            rest.push((2, profile, entries.last().0@))
        } else {
            rest
        }
    }
}

/// The errors of the profiles of `profiles`, in order: a profile with no
/// deploy map, or each path of its deploy map where no challenge is.
pub open spec fn deploy_errors(
    profiles: Seq<(String, ProfileConfig)>,
    deploy: Seq<(String, ProfileDeploy)>,
    chals: Seq<ChallengeConfig>,
) -> Seq<(int, Seq<char>, Seq<char>)>
    decreases profiles.len(),
{
    if profiles.len() == 0 {
        Seq::empty()
    } else {
        let rest = deploy_errors(profiles.drop_last(), deploy, chals);
        let name = profiles.last().0@;
        match deploy_for(deploy, name) {
            None => rest.push((1, name, Seq::empty())),
            Some(d) => rest + missing_paths(name, d.challenges@, chals),
        }
    }
}

fn find_deploy<'a>(deploy: &'a Vec<(String, ProfileDeploy)>, name: &str) -> (r: Option<&'a ProfileDeploy>)
    ensures
        r is Some <==> deploy_for(deploy@, name@) is Some,
        r is Some ==> *r->Some_0 == deploy_for(deploy@, name@)->Some_0,
{
    let mut i: usize = 0;
    assert(deploy@.subrange(0, deploy@.len() as int) =~= deploy@);
    while i < deploy.len()
        invariant
            i <= deploy@.len(),
            deploy_for(deploy@, name@) == deploy_for(deploy@.subrange(i as int, deploy@.len() as int), name@),
        decreases deploy.len() - i,
    {
        assert(deploy@.subrange(i as int, deploy@.len() as int).drop_first() =~= deploy@.subrange(
            i + 1,
            deploy@.len() as int,
        ));
        if same_text(deploy[i].0.as_str(), name) {
            return Some(&deploy[i].1);
        }
        i = i + 1;
    }
    None
}

fn push_error(out: &mut Vec<ConfigError>, e: ConfigError)
    ensures
        final(out)@.map_values(|x: ConfigError| error_view(x)) == old(out)@.map_values(
            |x: ConfigError| error_view(x),
        ).push(error_view(e)),
{
    out.push(e);
    assert(final(out)@.map_values(|x: ConfigError| error_view(x)) =~= old(out)@.map_values(
        |x: ConfigError| error_view(x),
    ).push(error_view(e)));
}

/// Checks the deploy maps before any work starts: every profile has one,
/// and every directory one lists holds a challenge. Returns every error, in
/// profile order; none where all is well.
pub fn validate_deploy(config: &RcdsConfig, chals: &Vec<ChallengeConfig>) -> (r: Vec<ConfigError>)
    ensures
        r@.map_values(|e: ConfigError| error_view(e)) == deploy_errors(
            config.profiles@,
            config.deploy@,
            chals@,
        ),
{
    let mut out: Vec<ConfigError> = Vec::new();
    let mut i: usize = 0;
    while i < config.profiles.len()
        invariant
            i <= config.profiles@.len(),
            out@.map_values(|e: ConfigError| error_view(e)) == deploy_errors(
                config.profiles@.subrange(0, i as int),
                config.deploy@,
                chals@,
            ),
        decreases config.profiles.len() - i,
    {
        assert(config.profiles@.subrange(0, i + 1).drop_last() =~= config.profiles@.subrange(0, i as int));
        let name = &config.profiles[i].0;
        match find_deploy(&config.deploy, name.as_str()) {
            None => {
                push_error(&mut out, ConfigError::ProfileNotDeployed { name: name.clone() });
            },
            Some(d) => {
                let ghost start = out@.map_values(|e: ConfigError| error_view(e));
                let mut k: usize = 0;
                while k < d.challenges.len()
                    invariant
                        k <= d.challenges@.len(),
                        out@.map_values(|e: ConfigError| error_view(e)) == start + missing_paths(
                            name@,
                            d.challenges@.subrange(0, k as int),
                            chals@,
                        ),
                    decreases d.challenges.len() - k,
                {
                    assert(d.challenges@.subrange(0, k + 1).drop_last() =~= d.challenges@.subrange(
                        0,
                        k as int,
                    ));
                    let path = &d.challenges[k].0;
                    match find_challenge(chals, path.as_str()) {
                        None => {
                            push_error(
                                &mut out,
                                ConfigError::MissingChallenge { profile: name.clone(), path: path.clone() },
                            );
                            assert(start + missing_paths(name@, d.challenges@.subrange(0, k + 1), chals@)
                                =~= (start + missing_paths(name@, d.challenges@.subrange(0, k as int), chals@)).push(
                                (2, name@, path@),
                            ));
                        },
                        Some(_) => {},
                    }
                    k = k + 1;
                }
                assert(d.challenges@.subrange(0, d.challenges@.len() as int) =~= d.challenges@);
            },
        }
        i = i + 1;
    }
    assert(config.profiles@.subrange(0, config.profiles@.len() as int) =~= config.profiles@);
    out
}

} // verus!
