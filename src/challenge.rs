//! The challenge model: flags, provided files, pods, and the rules that read
//! them (slugs, image tags, pod environments, provide entries).
use vstd::prelude::*;

use crate::config::{Registry, Resource};
use crate::template::{pairs_view, render_of, render_strict};
use crate::text::{
    chars_of, dash_words, dashed_lower_words, file_name, file_name_of, lower_of, parent_of,
    parent_path, replace_slashes, same_text, slash_to_dash, string_from,
};

verus! {

/// How a challenge's flag is given.
#[derive(Clone, Debug, PartialEq)]
pub enum FlagType {
    RawString(String),
    File { file: String },
    Text { text: String },
    Regex { regex: String },
    Verifier { verifier: String },
}

/// A set of files handed to players: from the repository or from a named
/// container of the challenge, as they are, renamed, or zipped together.
#[derive(Clone, Debug, PartialEq)]
pub enum ProvideConfig {
    /// Repository files, as they are.
    FromRepo { files: Vec<String> },
    /// One repository file, renamed.
    FromRepoRename { from: String, to: String },
    /// Repository files, zipped into one archive.
    FromRepoArchive { files: Vec<String>, archive_name: String },
    /// Container files, as they are.
    FromContainer { container: String, files: Vec<String> },
    /// One container file, renamed.
    FromContainerRename { container: String, from: String, to: String },
    /// Container files, zipped into one archive.
    FromContainerArchive { container: String, files: Vec<String>, archive_name: String },
}

/// The file list of a provide entry: one path or a list of them.
#[derive(Clone, Debug, PartialEq)]
pub enum IncludeField {
    One(String),
    Many(Vec<String>),
}

/// A provide entry as written: a bare path, or the keys for the container,
/// the files and the new name (`unknown_key` says whether any other key was
/// present).
#[derive(Clone, Debug, PartialEq)]
pub enum RawProvide {
    Bare(String),
    Fields {
        from: Option<String>,
        paths: Option<IncludeField>,
        as_name: Option<String>,
        unknown_key: bool,
    },
}

/// Why a provide entry does not parse.
#[derive(Clone, Copy, Debug, PartialEq, Eq, Structural)]
pub enum ProvideError {
    /// The entry lists no files.
    MissingInclude,
    /// The entry has a key it does not know.
    UnknownKey,
    /// An archive is asked for with an empty file list.
    EmptyArchive,
}

/// The content of a provide entry, as plain values.
pub enum ProvideShape {
    Repo { files: Seq<Seq<char>> },
    RepoRename { from: Seq<char>, to: Seq<char> },
    RepoArchive { files: Seq<Seq<char>>, archive: Seq<char> },
    Container { container: Seq<char>, files: Seq<Seq<char>> },
    ContainerRename { container: Seq<char>, from: Seq<char>, to: Seq<char> },
    ContainerArchive { container: Seq<char>, files: Seq<Seq<char>>, archive: Seq<char> },
}

/// The views of a list of strings.
pub open spec fn strs(v: Seq<String>) -> Seq<Seq<char>> {
    v.map_values(|s: String| s@)
}

impl View for ProvideConfig {
    type V = ProvideShape;

    open spec fn view(&self) -> ProvideShape {
        match self {
            ProvideConfig::FromRepo { files } => ProvideShape::Repo { files: strs(files@) },
            ProvideConfig::FromRepoRename { from, to } => ProvideShape::RepoRename {
                from: from@,
                to: to@,
            },
            ProvideConfig::FromRepoArchive { files, archive_name } => ProvideShape::RepoArchive {
                files: strs(files@),
                archive: archive_name@,
            },
            ProvideConfig::FromContainer { container, files } => ProvideShape::Container {
                container: container@,
                files: strs(files@),
            },
            ProvideConfig::FromContainerRename { container, from, to } =>
                ProvideShape::ContainerRename { container: container@, from: from@, to: to@ },
            ProvideConfig::FromContainerArchive { container, files, archive_name } =>
                ProvideShape::ContainerArchive {
                container: container@,
                files: strs(files@),
                archive: archive_name@,
            },
        }
    }
}

/// The paths named by a file list.
pub open spec fn included(i: IncludeField) -> Seq<Seq<char>> {
    match i {
        IncludeField::One(s) => seq![s@],
        IncludeField::Many(v) => strs(v@),
    }
}

/// How a written provide entry is read. The shapes are tried in this order:
/// a bare path is one repository file as it is; unknown keys are refused; the
/// file list is required; without a new name (`as`) the
/// files are provided as they are; with `as`, a single path is renamed and a
/// list (not empty) is zipped. `from` names the container, and without it the
/// files come from the repository.
pub open spec fn classify(raw: RawProvide) -> Result<ProvideShape, ProvideError> {
    match raw {
        RawProvide::Bare(s) => Ok(ProvideShape::Repo { files: seq![s@] }),
        RawProvide::Fields { from, paths, as_name, unknown_key } => {
            if unknown_key {
                Err(ProvideError::UnknownKey)
            } else if paths is None {
                Err(ProvideError::MissingInclude)
            } else {
                let inc = paths->Some_0;
                match as_name {
                    None => match from {
                        None => Ok(ProvideShape::Repo { files: included(inc) }),
                        Some(c) => Ok(ProvideShape::Container { container: c@, files: included(inc) }),
                    },
                    Some(a) => match inc {
                        IncludeField::One(f) => match from {
                            None => Ok(ProvideShape::RepoRename { from: f@, to: a@ }),
                            Some(c) => Ok(
                                ProvideShape::ContainerRename { container: c@, from: f@, to: a@ },
                            ),
                        },
                        IncludeField::Many(l) => if l@.len() == 0 {
                            Err(ProvideError::EmptyArchive)
                        } else {
                            match from {
                                None => Ok(ProvideShape::RepoArchive { files: strs(l@), archive: a@ }),
                                Some(c) => Ok(
                                    ProvideShape::ContainerArchive {
                                        container: c@,
                                        files: strs(l@),
                                        archive: a@,
                                    },
                                ),
                            }
                        },
                    },
                }
            }
        },
    }
}

fn include_list(inc: IncludeField) -> (r: Vec<String>)
    ensures
        strs(r@) == included(inc),
{
    match inc {
        IncludeField::One(s) => {
            let r = vec![s];
            assert(strs(r@) =~= seq![s@]);
            r
        },
        IncludeField::Many(v) => v,
    }
}

impl ProvideConfig {
    /// Reads a written provide entry.
    pub fn from_raw(raw: RawProvide) -> (r: Result<ProvideConfig, ProvideError>)
        ensures
            r is Ok <==> classify(raw) is Ok,
            r is Ok ==> r->Ok_0@ == classify(raw)->Ok_0,
            r is Err ==> r->Err_0 == classify(raw)->Err_0,
    {
        match raw {
            RawProvide::Bare(s) => {
                let files = vec![s];
                assert(strs(files@) =~= seq![s@]);
                Ok(ProvideConfig::FromRepo { files })
            },
            RawProvide::Fields { from, paths, as_name, unknown_key } => {
                if unknown_key {
                    return Err(ProvideError::UnknownKey);
                }
                let inc = match paths {
                    None => {
                        return Err(ProvideError::MissingInclude);
                    },
                    Some(i) => i,
                };
                match as_name {
                    None => {
                        let files = include_list(inc);
                        match from {
                            None => Ok(ProvideConfig::FromRepo { files }),
                            Some(container) => Ok(ProvideConfig::FromContainer { container, files }),
                        }
                    },
                    Some(to) => match inc {
                        IncludeField::One(f) => match from {
                            None => Ok(ProvideConfig::FromRepoRename { from: f, to }),
                            Some(container) => Ok(
                                ProvideConfig::FromContainerRename { container, from: f, to },
                            ),
                        },
                        IncludeField::Many(files) => {
                            if files.len() == 0 {
                                return Err(ProvideError::EmptyArchive);
                            }
                            match from {
                                None => Ok(ProvideConfig::FromRepoArchive { files, archive_name: to }),
                                Some(container) => Ok(
                                    ProvideConfig::FromContainerArchive {
                                        container,
                                        files,
                                        archive_name: to,
                                    },
                                ),
                            }
                        },
                    },
                }
            },
        }
    }
}

/// How a pod's image is had: built from a context, or an existing image.
#[derive(Clone, Debug, PartialEq)]
pub enum ImageSource {
    Build(BuildObject),
    Image(String),
}

/// A build context, the Dockerfile in it, and build arguments.
#[derive(Clone, Debug, PartialEq)]
pub struct BuildObject {
    pub context: String,
    pub dockerfile: String,
    pub args: Vec<(String, String)>,
}

/// `Dockerfile`, the Dockerfile used when none is named.
pub open spec fn dockerfile_default() -> Seq<char> {
    seq!['D', 'o', 'c', 'k', 'e', 'r', 'f', 'i', 'l', 'e']
}

/// The Dockerfile used when none is named.
pub fn default_dockerfile() -> (r: String)
    ensures
        r@ == dockerfile_default(),
{
    proof {
        reveal_strlit("Dockerfile");
    }
    "Dockerfile".to_owned()
}

impl BuildObject {
    /// A build of the context `context` with the default Dockerfile and no
    /// arguments, as a bare string stands for.
    pub fn from_context(context: &str) -> (r: BuildObject)
        ensures
            r.context@ == context@,
            r.dockerfile@ == dockerfile_default(),
            r.args@.len() == 0,
    {
        BuildObject { context: context.to_owned(), dockerfile: default_dockerfile(), args: Vec::new() }
    }
}

/// A pod's environment, as a `NAME=VALUE` list or as a map.
#[derive(Clone, Debug, PartialEq)]
pub enum ListOrMap {
    List(Vec<String>),
    Mapping(Vec<(String, String)>),
}

impl Default for ListOrMap {
    /// An empty map.
    fn default() -> (r: ListOrMap)
        ensures
            r matches ListOrMap::Mapping(m) && m@.len() == 0,
    {
        ListOrMap::Mapping(Vec::new())
    }
}

#[derive(Clone, Debug, PartialEq)]
pub struct PortConfig {
    pub internal: i64,
    pub expose: ExposeType,
}

/// How a port is exposed: on a TCP port, or over HTTP on a host name.
#[derive(Clone, Debug, PartialEq)]
pub enum ExposeType {
    Tcp(i64),
    Http(String),
}

#[derive(Clone, Debug, PartialEq)]
pub struct Pod {
    pub name: String,
    pub image_source: ImageSource,
    pub env: ListOrMap,
    pub resources: Option<Resource>,
    pub replicas: i64,
    pub ports: Vec<PortConfig>,
    pub volume: Option<String>,
}

#[derive(Clone, Debug, PartialEq)]
pub struct ChallengeConfig {
    pub name: String,
    pub author: String,
    pub description: String,
    pub category: String,
    /// The challenge's directory, `<category>/<name>`: it identifies the
    /// challenge.
    pub directory: String,
    pub difficulty: i64,
    pub flag: FlagType,
    pub provide: Vec<ProvideConfig>,
    pub pods: Vec<Pod>,
}

/// The category of a challenge in `dir`: the name of the directory above it.
pub open spec fn category_of(dir: Seq<char>) -> Option<Seq<char>> {
    match parent_of(dir) {
        None => None,
        Some(p) => file_name_of(p),
    }
}

/// The category of the challenge in `dir`, such as `pwn` for `pwn/notsh`,
/// or `None` where `dir` has no directory above it.
pub fn category_from_dir(dir: &str) -> (r: Option<String>)
    ensures
        r is Some <==> category_of(dir@) is Some,
        r is Some ==> r->Some_0@ == category_of(dir@)->Some_0,
{
    match parent_path(dir) {
        None => None,
        Some(p) => file_name(p.as_str()),
    }
}

/// Difficulty of a challenge that gives none.
pub fn default_difficulty() -> (r: i64)
    ensures
        r == 1,
{
    1
}

/// Errors of the challenge rules.
#[derive(Clone, Debug, PartialEq)]
pub enum ChallengeError {
    /// The challenge has no pod of this name.
    PodNotFound { pod: String },
    /// The image tag template did not render.
    TagTemplate { template: String },
    /// An environment entry has no `=`.
    MalformedEnv { var: String },
}

/// The directory slug with `/` kept: lower case, words joined by `-`.
pub open spec fn slug_slash_of(dir: Seq<char>) -> Seq<char> {
    dash_words(lower_of(dir), Seq::empty(), false)
}

/// The directory slug: as `slug_slash_of`, with `/` turned into `-`.
pub open spec fn slug_of(dir: Seq<char>) -> Seq<char> {
    slash_to_dash(slug_slash_of(dir))
}

pub open spec fn word_domain() -> Seq<char> {
    seq!['d', 'o', 'm', 'a', 'i', 'n']
}

pub open spec fn word_challenge() -> Seq<char> {
    seq!['c', 'h', 'a', 'l', 'l', 'e', 'n', 'g', 'e']
}

pub open spec fn word_container() -> Seq<char> {
    seq!['c', 'o', 'n', 't', 'a', 'i', 'n', 'e', 'r']
}

pub open spec fn word_profile() -> Seq<char> {
    seq!['p', 'r', 'o', 'f', 'i', 'l', 'e']
}

/// The variables an image tag template is rendered with.
pub open spec fn tag_vars(
    domain: Seq<char>,
    challenge: Seq<char>,
    container: Seq<char>,
    profile: Seq<char>,
) -> Seq<(Seq<char>, Seq<char>)> {
    seq![
        (word_domain(), domain),
        (word_challenge(), challenge),
        (word_container(), container),
        (word_profile(), profile),
    ]
}

/// The tag of an image built for `container` of the challenge slugged
/// `challenge`, or `None` where the template does not render.
pub open spec fn built_tag(
    template: Seq<char>,
    domain: Seq<char>,
    challenge: Seq<char>,
    container: Seq<char>,
    profile: Seq<char>,
) -> Option<Seq<char>> {
    render_of(template, tag_vars(domain, challenge, container, profile))
}

/// Renders the image tag template `template` for one container.
pub fn render_image_tag(
    template: &str,
    domain: &str,
    challenge: &str,
    container: &str,
    profile: &str,
) -> (r: Result<String, ChallengeError>)
    ensures
        r is Ok <==> built_tag(template@, domain@, challenge@, container@, profile@) is Some,
        r is Ok ==> r->Ok_0@ == built_tag(template@, domain@, challenge@, container@, profile@)->Some_0,
        r is Err ==> r->Err_0 is TagTemplate && r->Err_0->TagTemplate_template@ == template@,
{
    proof {
        reveal_strlit("domain");
        reveal_strlit("challenge");
        reveal_strlit("container");
        reveal_strlit("profile");
    }
    let vars = vec![
        ("domain".to_owned(), domain.to_owned()),
        ("challenge".to_owned(), challenge.to_owned()),
        ("container".to_owned(), container.to_owned()),
        ("profile".to_owned(), profile.to_owned()),
    ];
    assert(vars@[0].0@ =~= word_domain());
    assert(vars@[1].0@ =~= word_challenge());
    assert(vars@[2].0@ =~= word_container());
    assert(vars@[3].0@ =~= word_profile());
    assert(pairs_view(vars@) =~= tag_vars(domain@, challenge@, container@, profile@));
    match render_strict(template, &vars) {
        Some(t) => Ok(t),
        None => Err(ChallengeError::TagTemplate { template: template.to_owned() }),
    }
}

/// The first pod of `pods` named `name`.
pub open spec fn pod_named(pods: Seq<Pod>, name: Seq<char>) -> Option<Pod>
    decreases pods.len(),
{
    if pods.len() == 0 {
        None
    } else if pods[0].name@ == name {
        Some(pods[0])
    } else {
        pod_named(pods.drop_first(), name)
    }
}

/// The image reference of the pod `pod_name` of a challenge in `dir`: the
/// upstream image, or the rendered tag of the image to build.
pub open spec fn tag_for_pod(
    pods: Seq<Pod>,
    dir: Seq<char>,
    registry: Registry,
    profile: Seq<char>,
    pod_name: Seq<char>,
) -> Option<Seq<char>> {
    match pod_named(pods, pod_name) {
        None => None,
        Some(p) => match p.image_source {
            ImageSource::Image(t) => Some(t@),
            ImageSource::Build(_) => built_tag(
                registry.tag_format@,
                registry.domain@,
                slug_of(dir),
                p.name@,
                profile,
            ),
        },
    }
}

/// Fixed inputs give a fixed image tag: two challenges with the same
/// directory and pods, two registries with the same domain and template, and
/// the same profile and pod name resolve to the same tag, or both fail.
pub proof fn lemma_tag_deterministic(
    pods1: Seq<Pod>,
    pods2: Seq<Pod>,
    dir1: Seq<char>,
    dir2: Seq<char>,
    reg1: Registry,
    reg2: Registry,
    profile1: Seq<char>,
    profile2: Seq<char>,
    pod1: Seq<char>,
    pod2: Seq<char>,
)
    requires
        pods1 == pods2,
        dir1 == dir2,
        reg1.domain@ == reg2.domain@,
        reg1.tag_format@ == reg2.tag_format@,
        profile1 == profile2,
        pod1 == pod2,
    ensures
        tag_for_pod(pods1, dir1, reg1, profile1, pod1) == tag_for_pod(
            pods2,
            dir2,
            reg2,
            profile2,
            pod2,
        ),
{
}

fn find_pod<'a>(pods: &'a Vec<Pod>, name: &str) -> (r: Option<&'a Pod>)
    ensures
        r is Some <==> pod_named(pods@, name@) is Some,
        r is Some ==> *r->Some_0 == pod_named(pods@, name@)->Some_0,
{
    let mut i: usize = 0;
    assert(pods@.subrange(0, pods@.len() as int) =~= pods@);
    while i < pods.len()
        invariant
            i <= pods@.len(),
            pod_named(pods@, name@) == pod_named(pods@.subrange(i as int, pods@.len() as int), name@),
        decreases pods.len() - i,
    {
        assert(pods@.subrange(i as int, pods@.len() as int).drop_first() =~= pods@.subrange(
            i + 1,
            pods@.len() as int,
        ));
        if same_text(pods[i].name.as_str(), name) {
            return Some(&pods[i]);
        }
        i = i + 1;
    }
    None
}

impl ChallengeConfig {
    /// The challenge slug with the category's `/` kept, such as `pwn/notsh`.
    pub fn slugify_slash(&self) -> (r: String)
        ensures
            r@ == slug_slash_of(self.directory@),
    {
        dashed_lower_words(self.directory.as_str())
    }

    /// The challenge slug, such as `pwn-notsh`.
    pub fn slugify(&self) -> (r: String)
        ensures
            r@ == slug_of(self.directory@),
    {
        let s = self.slugify_slash();
        replace_slashes(s.as_str())
    }

    /// The image reference of the pod `pod_name`: its upstream image, or the
    /// tag its built image gets.
    pub fn container_tag_for_pod(&self, registry: &Registry, profile_name: &str, pod_name: &str) -> (r:
        Result<String, ChallengeError>)
        ensures
            r is Ok <==> tag_for_pod(self.pods@, self.directory@, *registry, profile_name@, pod_name@) is Some,
            r is Ok ==> r->Ok_0@ == tag_for_pod(
                self.pods@,
                self.directory@,
                *registry,
                profile_name@,
                pod_name@,
            )->Some_0,
            r is Err ==> (r->Err_0 is PodNotFound <==> pod_named(self.pods@, pod_name@) is None),
            r matches Err(ChallengeError::PodNotFound { pod }) ==> pod@ == pod_name@,
    {
        let pod = match find_pod(&self.pods, pod_name) {
            Some(p) => p,
            None => {
                return Err(ChallengeError::PodNotFound { pod: pod_name.to_owned() });
            },
        };
        match &pod.image_source {
            ImageSource::Image(t) => Ok(t.clone()),
            ImageSource::Build(_) => {
                let slug = self.slugify();
                render_image_tag(
                    registry.tag_format.as_str(),
                    registry.domain.as_str(),
                    slug.as_str(),
                    pod.name.as_str(),
                    profile_name,
                )
            },
        }
    }
}

/// The place of the first `=` of `s` (where there is one).
pub open spec fn eq_at(s: Seq<char>) -> int {
    choose|k: int| 0 <= k < s.len() && s[k] == '=' && forall|j: int| 0 <= j < k ==> s[j] != '='
}

/// `s` holds an `=`.
pub open spec fn has_eq(s: Seq<char>) -> bool {
    exists|k: int| 0 <= k < s.len() && s[k] == '='
}

/// `NAME=VALUE` split at the first `=`.
pub open spec fn split_env(s: Seq<char>) -> (Seq<char>, Seq<char>) {
    (s.subrange(0, eq_at(s)), s.subrange(eq_at(s) + 1, s.len() as int))
}

/// `m` with `k` set to `v`: in place where `k` is a key, else added last.
pub open spec fn env_insert(m: Seq<(Seq<char>, Seq<char>)>, k: Seq<char>, v: Seq<char>) -> Seq<
    (Seq<char>, Seq<char>),
> {
    if exists|i: int| 0 <= i < m.len() && m[i].0 == k {
        m.update(choose|i: int| 0 <= i < m.len() && m[i].0 == k, (k, v))
    } else {
        m.push((k, v))
    }
}

/// The map built from `NAME=VALUE` entries in order, a later value of a name
/// replacing an earlier one.
pub open spec fn env_map_of(list: Seq<Seq<char>>) -> Seq<(Seq<char>, Seq<char>)>
    decreases list.len(),
{
    if list.len() == 0 {
        Seq::empty()
    } else {
        let (k, v) = split_env(list.last());
        env_insert(env_map_of(list.drop_last()), k, v)
    }
}

pub open spec fn distinct_keys(m: Seq<(Seq<char>, Seq<char>)>) -> bool {
    forall|i: int, j: int| 0 <= i < j < m.len() ==> m[i].0 != m[j].0
}

fn split_env_entry(s: &String) -> (r: Option<(String, String)>)
    ensures
        r is Some <==> has_eq(s@),
        r is Some ==> r->Some_0.0@ == split_env(s@).0 && r->Some_0.1@ == split_env(s@).1,
{
    let cs = chars_of(s.as_str());
    let mut k: usize = 0;
    while k < cs.len() && cs[k] != '='
        invariant
            k <= cs@.len(),
            cs@ == s@,
            forall|j: int| 0 <= j < k ==> cs@[j] != '=',
        decreases cs.len() - k,
    {
        k = k + 1;
    }
    if k == cs.len() {
        return None;
    }
    assert(eq_at(s@) == k) by {
        let e = eq_at(s@);
        assert(0 <= k < s@.len() && s@[k as int] == '=');
        if e < k {
            assert(s@[e] != '=');
        } else if e > k {
            assert(s@[k as int] != '=');
        }
    }
    let mut name: Vec<char> = Vec::new();
    let mut i: usize = 0;
    while i < k
        invariant
            k < cs@.len(),
            i <= k,
            name@ == cs@.subrange(0, i as int),
        decreases k - i,
    {
        name.push(cs[i]);
        i = i + 1;
    }
    let mut value: Vec<char> = Vec::new();
    let mut j: usize = k + 1;
    while j < cs.len()
        invariant
            k < j <= cs@.len(),
            value@ == cs@.subrange(k + 1, j as int),
        decreases cs.len() - j,
    {
        value.push(cs[j]);
        j = j + 1;
    }
    Some((string_from(&name), string_from(&value)))
}

/// The map of a `NAME=VALUE` list: split at the first `=`, in order of first
/// appearance, a later value of a name replacing an earlier one. An entry
/// with no `=` is an error.
pub fn env_to_map(list: &Vec<String>) -> (r: Result<Vec<(String, String)>, ChallengeError>)
    ensures
        r is Ok <==> forall|i: int| 0 <= i < list@.len() ==> has_eq(#[trigger] list@[i]@),
        r is Ok ==> pairs_view(r->Ok_0@) == env_map_of(strs(list@)),
        r matches Err(ChallengeError::MalformedEnv { var }) ==> exists|i: int|
            0 <= i < list@.len() && !has_eq(#[trigger] list@[i]@) && var@ == list@[i]@,
        r is Err ==> r->Err_0 is MalformedEnv,
{
    let mut out: Vec<(String, String)> = Vec::new();
    let mut i: usize = 0;
    while i < list.len()
        invariant
            i <= list@.len(),
            forall|j: int| 0 <= j < i ==> has_eq(#[trigger] list@[j]@),
            pairs_view(out@) == env_map_of(strs(list@).subrange(0, i as int)),
            distinct_keys(pairs_view(out@)),
        decreases list.len() - i,
    {
        assert(strs(list@).subrange(0, i + 1).drop_last() =~= strs(list@).subrange(0, i as int));
        assert(strs(list@).subrange(0, i + 1).last() == list@[i as int]@);
        let (name, value) = match split_env_entry(&list[i]) {
            Some(p) => p,
            None => {
                return Err(ChallengeError::MalformedEnv { var: list[i].clone() });
            },
        };
        let ghost m = pairs_view(out@);
        let found_at = crate::config::find_key(&out, name.as_str());
        let found: usize = match found_at {
            Some(f) => f,
            None => out.len(),
        };
        assert(found_at is None ==> forall|x: int| 0 <= x < m.len() ==> m[x].0 != name@) by {
            if found_at is None {
                assert forall|x: int| 0 <= x < m.len() implies m[x].0 != name@ by {
                    assert(m[x].0 == out@[x].0@);
                }
            }
        }
        if found < out.len() {
            assert(m[found as int].0 == out@[found as int].0@);
            assert(m[found as int].0 == name@);
            assert((choose|x: int| 0 <= x < m.len() && m[x].0 == name@) == found as int) by {
                let c = choose|x: int| 0 <= x < m.len() && m[x].0 == name@;
                if c != found as int {
                    assert(m[c].0 == m[found as int].0);
                }
            }
            let key = out[found].0.clone();
            out.set(found, (key, value));
            assert(pairs_view(out@) =~= m.update(found as int, (name@, value@)));
        } else {
            assert(!(exists|x: int| 0 <= x < m.len() && m[x].0 == name@));
            out.push((name, value));
            assert(pairs_view(out@) =~= m.push((name@, value@)));
        }
        i = i + 1;
    }
    assert(strs(list@).subrange(0, list@.len() as int) =~= strs(list@));
    Ok(out)
}

/// A pod's environment as a map: a list is turned into one, a map is kept.
pub fn coerce_env(env: ListOrMap) -> (r: Result<ListOrMap, ChallengeError>)
    ensures
        env matches ListOrMap::Mapping(m) ==> r matches Ok(ListOrMap::Mapping(x)) && x == m,
        env matches ListOrMap::List(l) ==> (r is Ok <==> forall|i: int|
            0 <= i < l@.len() ==> has_eq(#[trigger] l@[i]@)),
        env matches ListOrMap::List(l) ==> (r is Ok ==> (r matches Ok(ListOrMap::Mapping(x))
            && pairs_view(x@) == env_map_of(strs(l@)))),
{
    match env {
        ListOrMap::Mapping(m) => Ok(ListOrMap::Mapping(m)),
        ListOrMap::List(l) => {
            let m = env_to_map(&l)?;
            Ok(ListOrMap::Mapping(m))
        },
    }
}

} // verus!
