//! Build orchestration: what each pod needs (an upstream image or a build),
//! which tags get pushed, how results are joined (the first failure ends the
//! run), and how the engine's build and push streams are read.
use vstd::prelude::*;

use crate::artifacts::ExtractError;
use crate::challenge::{
    built_tag, slug_of, ChallengeConfig, ChallengeError, ImageSource, Pod,
};
use crate::config::Registry;
use crate::template::{clone_pairs, pairs_view};
use crate::text::{chars_of, join_path, joined, string_from};

verus! {

/// An image reference, marked by whether this run built it.
#[derive(Clone, Debug, PartialEq)]
pub enum TagWithSource {
    /// An existing image, used as it is.
    Upstream(String),
    /// An image built in this run.
    Built(String),
}

/// What building one challenge produced.
#[derive(Clone, Debug, PartialEq)]
pub struct BuildResult {
    /// One image reference per pod, in pod order.
    pub tags: Vec<TagWithSource>,
    /// Paths of the files extracted for players.
    pub assets: Vec<String>,
}

/// What one pod needs before it can run.
#[derive(Clone, Debug, PartialEq)]
pub enum PodJob {
    /// Nothing: the image exists upstream.
    Upstream { tag: String },
    /// A build of `context` with `dockerfile` and `args`, tagged `tag`.
    Build {
        pod: String,
        tag: String,
        context: String,
        dockerfile: String,
        args: Vec<(String, String)>,
    },
}

/// Errors of building, pushing and extracting.
#[derive(Clone, Debug, PartialEq)]
pub enum BuildError {
    /// The image of `pod` of the challenge in `challenge` failed to build;
    /// `message` is the engine's.
    Build { challenge: String, pod: String, message: String },
    /// Pushing `tag` failed; `message` is the registry's.
    Push { tag: String, message: String },
    /// Extracting the files of the challenge in `challenge` failed.
    Extract { challenge: String, cause: ExtractError },
    /// An image reference has no `:` before its tag.
    NoTag { image: String },
    /// An image reference could not be resolved.
    Tag { reason: ChallengeError },
}

/// Every pod that builds has a tag that renders.
pub open spec fn tags_render(pods: Seq<Pod>, dir: Seq<char>, registry: Registry, profile: Seq<char>) -> bool {
    forall|i: int|
        0 <= i < pods.len() ==> (#[trigger] pods[i]).image_source is Build ==> built_tag(
            registry.tag_format@,
            registry.domain@,
            slug_of(dir),
            pods[i].name@,
            profile,
        ) is Some
}

/// The job of one pod: its upstream image, or a build of its context (under
/// the challenge directory) tagged from the template.
pub open spec fn job_matches(j: PodJob, p: Pod, dir: Seq<char>, registry: Registry, profile: Seq<char>) -> bool {
    match p.image_source {
        ImageSource::Image(t) => j matches PodJob::Upstream { tag } && tag@ == t@,
        ImageSource::Build(b) => match j {
            PodJob::Build { pod, tag, context, dockerfile, args } => pod@ == p.name@ && Some(tag@)
                == built_tag(registry.tag_format@, registry.domain@, slug_of(dir), p.name@, profile)
                && context@ == joined(dir, b.context@) && dockerfile@ == b.dockerfile@
                && pairs_view(args@) == pairs_view(b.args@),
            _ => false,
        },
    }
}

/// One job per pod of `chal`, in pod order; fails where a tag does not
/// render.
pub fn plan_pod_builds(chal: &ChallengeConfig, registry: &Registry, profile_name: &str) -> (r: Result<
    Vec<PodJob>,
    BuildError,
>)
    ensures
        r is Ok <==> tags_render(chal.pods@, chal.directory@, *registry, profile_name@),
        r is Err ==> r->Err_0 is Tag,
        r is Ok ==> r->Ok_0@.len() == chal.pods@.len() && forall|i: int|
            0 <= i < chal.pods@.len() ==> job_matches(
                #[trigger] r->Ok_0@[i],
                chal.pods@[i],
                chal.directory@,
                *registry,
                profile_name@,
            ),
{
    let slug = chal.slugify();
    let mut jobs: Vec<PodJob> = Vec::new();
    let mut i: usize = 0;
    while i < chal.pods.len()
        invariant
            i <= chal.pods@.len(),
            slug@ == slug_of(chal.directory@),
            jobs@.len() == i,
            tags_render(chal.pods@.subrange(0, i as int), chal.directory@, *registry, profile_name@),
            forall|k: int|
                0 <= k < i ==> job_matches(
                    #[trigger] jobs@[k],
                    chal.pods@[k],
                    chal.directory@,
                    *registry,
                    profile_name@,
                ),
        decreases chal.pods.len() - i,
    {
        let pod = &chal.pods[i];
        match &pod.image_source {
            ImageSource::Image(t) => {
                jobs.push(PodJob::Upstream { tag: t.clone() });
            },
            ImageSource::Build(b) => {
                let tag = match crate::challenge::render_image_tag(
                    registry.tag_format.as_str(),
                    registry.domain.as_str(),
                    slug.as_str(),
                    pod.name.as_str(),
                    profile_name,
                ) {
                    Ok(t) => t,
                    Err(e) => {
                        assert(!tags_render(chal.pods@, chal.directory@, *registry, profile_name@)) by {
                            assert(chal.pods@[i as int].image_source is Build);
                        }
                        return Err(BuildError::Tag { reason: e });
                    },
                };
                jobs.push(
                    PodJob::Build {
                        pod: pod.name.clone(),
                        tag,
                        context: join_path(chal.directory.as_str(), b.context.as_str()),
                        dockerfile: b.dockerfile.clone(),
                        args: clone_pairs(&b.args),
                    },
                );
            },
        }
        assert(chal.pods@.subrange(0, i + 1) =~= chal.pods@.subrange(0, i as int).push(chal.pods@[i as int]));
        i = i + 1;
    }
    assert(chal.pods@.subrange(0, chal.pods@.len() as int) =~= chal.pods@);
    Ok(jobs)
}

/// Joins results the fail-fast way: all the values in order where every
/// result is `Ok`, else the first error, with every later result dropped.
pub fn join_all<T, E>(results: Vec<Result<T, E>>) -> (r: Result<Vec<T>, E>)
    ensures
        r is Ok <==> forall|i: int| 0 <= i < results@.len() ==> (#[trigger] results@[i]) is Ok,
        r is Ok ==> r->Ok_0@.len() == results@.len() && forall|i: int|
            0 <= i < results@.len() ==> #[trigger] r->Ok_0@[i] == results@[i]->Ok_0,
        r is Err ==> exists|i: int|
            0 <= i < results@.len() && (#[trigger] results@[i]) is Err && r->Err_0 == results@[i]->Err_0
                && forall|j: int| 0 <= j < i ==> (#[trigger] results@[j]) is Ok,
{
    let ghost all = results@;
    let mut rest = results;
    let mut out: Vec<T> = Vec::new();
    while rest.len() > 0
        invariant
            all == results@,
            out@.len() + rest@.len() == all.len(),
            rest@ == all.subrange(out@.len() as int, all.len() as int),
            forall|i: int| 0 <= i < out@.len() ==> (#[trigger] all[i]) is Ok && out@[i] == all[i]->Ok_0,
        decreases rest@.len(),
    {
        let ghost k = out@.len() as int;
        let first = rest.remove(0);
        assert(all[k] == first);
        match first {
            Ok(v) => {
                out.push(v);
                assert(rest@ =~= all.subrange(out@.len() as int, all.len() as int));
            },
            Err(e) => {
                assert(0 <= k < all.len());
                assert(all[k] is Err && all[k]->Err_0 == e);
                assert(forall|j: int| 0 <= j < k ==> (#[trigger] all[j]) is Ok);
                assert(!(forall|i: int| 0 <= i < all.len() ==> (#[trigger] all[i]) is Ok));
                return Err(e);
            },
        }
    }
    Ok(out)
}

/// The image reference a job leaves: upstream as it was, or built.
pub open spec fn tag_of_job(j: PodJob) -> TagWithSource {
    match j {
        PodJob::Upstream { tag } => TagWithSource::Upstream(tag),
        PodJob::Build { tag, .. } => TagWithSource::Built(tag),
    }
}

/// The views of the references of some tags.
pub open spec fn tag_view(t: TagWithSource) -> (bool, Seq<char>) {
    match t {
        TagWithSource::Upstream(s) => (false, s@),
        TagWithSource::Built(s) => (true, s@),
    }
}

/// The image references of all pods once their jobs succeeded, in pod order.
pub fn tags_of_jobs(jobs: &Vec<PodJob>) -> (r: Vec<TagWithSource>)
    ensures
        r@.len() == jobs@.len(),
        forall|i: int| 0 <= i < jobs@.len() ==> tag_view(#[trigger] r@[i]) == tag_view(tag_of_job(jobs@[i])),
{
    let mut out: Vec<TagWithSource> = Vec::new();
    let mut i: usize = 0;
    while i < jobs.len()
        invariant
            i <= jobs@.len(),
            out@.len() == i,
            forall|k: int| 0 <= k < i ==> tag_view(#[trigger] out@[k]) == tag_view(tag_of_job(jobs@[k])),
        decreases jobs.len() - i,
    {
        match &jobs[i] {
            PodJob::Upstream { tag } => out.push(TagWithSource::Upstream(tag.clone())),
            PodJob::Build { tag, .. } => out.push(TagWithSource::Built(tag.clone())),
        }
        i = i + 1;
    }
    out
}

/// The references among `tags` that this run built, in order.
pub open spec fn built_refs(tags: Seq<TagWithSource>) -> Seq<Seq<char>>
    decreases tags.len(),
{
    if tags.len() == 0 {
        Seq::empty()
    } else {
        let rest = built_refs(tags.drop_last());
        match tags.last() {
            TagWithSource::Built(t) => rest.push(t@),
            TagWithSource::Upstream(_) => rest,
        }
    }
}

/// The tags to push: those built in this run, never an upstream image.
pub fn tags_to_push(tags: &Vec<TagWithSource>) -> (r: Vec<String>)
    ensures
        r@.map_values(|s: String| s@) == built_refs(tags@),
{
    let mut out: Vec<String> = Vec::new();
    let mut i: usize = 0;
    while i < tags.len()
        invariant
            i <= tags@.len(),
            out@.map_values(|s: String| s@) == built_refs(tags@.subrange(0, i as int)),
        decreases tags.len() - i,
    {
        assert(tags@.subrange(0, i + 1).drop_last() =~= tags@.subrange(0, i as int));
        match &tags[i] {
            TagWithSource::Built(t) => {
                let ghost before = out@;
                out.push(t.clone());
                assert(out@.map_values(|s: String| s@) =~= before.map_values(|s: String| s@).push(t@));
            },
            TagWithSource::Upstream(_) => {},
        }
        i = i + 1;
    }
    assert(tags@.subrange(0, tags@.len() as int) =~= tags@);
    out
}

/// All the lists of `lists`, one after the other.
pub open spec fn concat(lists: Seq<Seq<Seq<char>>>) -> Seq<Seq<char>>
    decreases lists.len(),
{
    if lists.len() == 0 {
        Seq::empty()
    } else {
        concat(lists.drop_last()) + lists.last()
    }
}

pub open spec fn lists_view(v: Seq<Vec<String>>) -> Seq<Seq<Seq<char>>> {
    v.map_values(|l: Vec<String>| l@.map_values(|s: String| s@))
}

/// The paths of all provide entries, flattened in entry order.
pub fn flatten_assets(lists: &Vec<Vec<String>>) -> (r: Vec<String>)
    ensures
        r@.map_values(|s: String| s@) == concat(lists_view(lists@)),
{
    let mut out: Vec<String> = Vec::new();
    let mut i: usize = 0;
    while i < lists.len()
        invariant
            i <= lists@.len(),
            out@.map_values(|s: String| s@) == concat(lists_view(lists@).subrange(0, i as int)),
        decreases lists.len() - i,
    {
        assert(lists_view(lists@).subrange(0, i + 1).drop_last() =~= lists_view(lists@).subrange(
            0,
            i as int,
        ));
        let ghost start = out@;
        let mut k: usize = 0;
        while k < lists[i].len()
            invariant
                i < lists@.len(),
                k <= lists@[i as int]@.len(),
                start.len() <= out@.len(),
                out@.subrange(0, start.len() as int) == start,
                out@.subrange(start.len() as int, out@.len() as int).map_values(|s: String| s@)
                    == lists@[i as int]@.map_values(|s: String| s@).subrange(0, k as int),
            decreases lists@[i as int]@.len() - k,
        {
            let ghost b = out@;
            out.push(lists[i][k].clone());
            assert(out@.subrange(0, start.len() as int) =~= b.subrange(0, start.len() as int));
            assert(out@.subrange(start.len() as int, out@.len() as int) =~= b.subrange(
                start.len() as int,
                b.len() as int,
            ).push(lists@[i as int]@[k as int]));
            assert(lists@[i as int]@.map_values(|s: String| s@).subrange(0, k + 1) =~= lists@[i as int]@.map_values(
                |s: String| s@,
            ).subrange(0, k as int).push(lists@[i as int]@[k as int]@));
            k = k + 1;
        }
        assert(out@ =~= start + out@.subrange(start.len() as int, out@.len() as int));
        assert(lists@[i as int]@.map_values(|s: String| s@).subrange(0, k as int) =~= lists@[i as int]@.map_values(
            |s: String| s@,
        ));
        assert(out@.map_values(|s: String| s@) =~= start.map_values(|s: String| s@) + out@.subrange(
            start.len() as int,
            out@.len() as int,
        ).map_values(|s: String| s@));
        i = i + 1;
    }
    assert(lists_view(lists@).subrange(0, lists@.len() as int) =~= lists_view(lists@));
    out
}

/// The result of building a challenge once every job succeeded: one tag per
/// job in order, and the extracted paths flattened where extraction ran, none
/// where it did not.
pub fn finish_build(jobs: &Vec<PodJob>, extracted: Option<Vec<Vec<String>>>) -> (r: BuildResult)
    ensures
        r.tags@.len() == jobs@.len(),
        forall|i: int| 0 <= i < jobs@.len() ==> tag_view(#[trigger] r.tags@[i]) == tag_view(tag_of_job(jobs@[i])),
        extracted is None ==> r.assets@.len() == 0,
        extracted matches Some(l) ==> r.assets@.map_values(|s: String| s@) == concat(lists_view(l@)),
{
    let tags = tags_of_jobs(jobs);
    let assets = match extracted {
        None => Vec::new(),
        Some(lists) => flatten_assets(&lists),
    };
    BuildResult { tags, assets }
}

/// A challenge with one pod, built from source, whose tag renders: its job
/// leaves one Built tag, the rendered one, and that tag is the only one
/// pushed.
pub proof fn lemma_single_built_pod(
    job: PodJob,
    pod: Pod,
    dir: Seq<char>,
    registry: Registry,
    profile: Seq<char>,
)
    requires
        pod.image_source is Build,
        job_matches(job, pod, dir, registry, profile),
    ensures
        built_tag(registry.tag_format@, registry.domain@, slug_of(dir), pod.name@, profile) is Some,
        tag_view(tag_of_job(job)) == (
            true,
            built_tag(registry.tag_format@, registry.domain@, slug_of(dir), pod.name@, profile)->Some_0,
        ),
        built_refs(seq![tag_of_job(job)]) == seq![
            built_tag(registry.tag_format@, registry.domain@, slug_of(dir), pod.name@, profile)->Some_0,
        ],
{
    let s = seq![tag_of_job(job)];
    assert(s.drop_last() =~= Seq::<TagWithSource>::empty());
    assert(built_refs(s.drop_last()) == Seq::<Seq<char>>::empty());
    assert(s.last() == tag_of_job(job));
    let t = built_tag(registry.tag_format@, registry.domain@, slug_of(dir), pod.name@, profile)->Some_0;
    match job {
        PodJob::Build { tag, .. } => {
            assert(tag@ == t);
            assert(built_refs(s) == Seq::<Seq<char>>::empty().push(tag@));
            assert(Seq::<Seq<char>>::empty().push(tag@) =~= seq![t]);
        },
        _ => {},
    }
}

/// One event of the engine's build stream.
#[derive(Clone, Debug, PartialEq)]
pub enum BuildEvent {
    /// A line of build output.
    Log(String),
    /// The daemon reported an error.
    ErrorDetail(String),
    /// The stream itself failed.
    StreamError(String),
}

/// Reads one build event: a log line to show, or the error that ends the
/// build, with the daemon's message kept as it was. There is no retry.
pub fn on_build_event(challenge: &str, pod: &str, event: BuildEvent) -> (r: Result<Option<String>, BuildError>)
    ensures
        event matches BuildEvent::Log(l) ==> r matches Ok(Some(x)) && x@ == l@,
        event matches BuildEvent::ErrorDetail(m) ==> r matches Err(BuildError::Build { challenge: c, pod: p, message: x })
            && x@ == m@ && c@ == challenge@ && p@ == pod@,
        event matches BuildEvent::StreamError(m) ==> r matches Err(BuildError::Build { challenge: c, pod: p, message: x })
            && x@ == m@ && c@ == challenge@ && p@ == pod@,
{
    match event {
        BuildEvent::Log(l) => Ok(Some(l)),
        BuildEvent::ErrorDetail(m) => Err(BuildError::Build { challenge: challenge.to_owned(), pod: pod.to_owned(), message: m }),
        BuildEvent::StreamError(m) => Err(BuildError::Build { challenge: challenge.to_owned(), pod: pod.to_owned(), message: m }),
    }
}

/// The place of the last `:` of `s`.
pub open spec fn last_colon(s: Seq<char>) -> Option<int>
    decreases s.len(),
{
    if s.len() == 0 {
        None
    } else if s.last() == ':' {
        Some(s.len() - 1)
    } else {
        last_colon(s.drop_last())
    }
}

/// Splits an image reference at its last `:` into the image and the tag, as
/// a push needs them.
pub fn split_image_tag(image_tag: &str) -> (r: Result<(String, String), BuildError>)
    ensures
        r is Ok <==> last_colon(image_tag@) is Some,
        r matches Ok((image, tag)) ==> image@ == image_tag@.subrange(0, last_colon(image_tag@)->Some_0)
            && tag@ == image_tag@.subrange(last_colon(image_tag@)->Some_0 + 1, image_tag@.len() as int),
        r matches Err(e) ==> e is NoTag,
{
    let cs = chars_of(image_tag);
    let mut k: usize = cs.len();
    assert(cs@.subrange(0, k as int) =~= cs@);
    while k > 0 && cs[k - 1] != ':'
        invariant
            k <= cs@.len(),
            cs@ == image_tag@,
            last_colon(cs@) == last_colon(cs@.subrange(0, k as int)),
        decreases k,
    {
        assert(cs@.subrange(0, k as int).drop_last() =~= cs@.subrange(0, k - 1));
        k = k - 1;
    }
    if k == 0 {
        assert(cs@.subrange(0, 0) =~= Seq::<char>::empty());
        return Err(BuildError::NoTag { image: image_tag.to_owned() });
    }
    let at = k - 1;
    let mut image: Vec<char> = Vec::new();
    let mut i: usize = 0;
    while i < at
        invariant
            at < cs@.len(),
            i <= at,
            image@ == cs@.subrange(0, i as int),
        decreases at - i,
    {
        image.push(cs[i]);
        i = i + 1;
    }
    let mut tag: Vec<char> = Vec::new();
    let mut j: usize = k;
    while j < cs.len()
        invariant
            k <= j <= cs@.len(),
            tag@ == cs@.subrange(k as int, j as int),
        decreases cs.len() - j,
    {
        tag.push(cs[j]);
        j = j + 1;
    }
    Ok((string_from(&image), string_from(&tag)))
}

/// A registry login found in the local engine's configuration.
#[derive(Clone, Debug, PartialEq)]
pub enum RegistryCredential {
    IdentityToken(String),
    UsernamePassword(String, String),
}

pub open spec fn docker_io() -> Seq<char> {
    seq!['d', 'o', 'c', 'k', 'e', 'r', '.', 'i', 'o']
}

/// Registry logins for building, by registry: the `docker.io` login where
/// one was found, and none (anonymous pulls) where the lookup failed.
pub fn credentials_or_anonymous(found: Option<RegistryCredential>) -> (r: Vec<(String, RegistryCredential)>)
    ensures
        found is None ==> r@.len() == 0,
        found is Some ==> r@.len() == 1 && r@[0].0@ == docker_io() && r@[0].1 == found->Some_0,
{
    match found {
        None => Vec::new(),
        Some(c) => {
            proof {
                reveal_strlit("docker.io");
            }
            vec![("docker.io".to_owned(), c)]
        },
    }
}

/// The kind of container engine the client talks to.
#[derive(Clone, Copy, Debug, PartialEq, Eq, Structural)]
pub enum EngineType {
    Docker,
    Podman,
}

pub open spec fn word_podman_engine() -> Seq<char> {
    seq!['P', 'o', 'd', 'm', 'a', 'n', ' ', 'E', 'n', 'g', 'i', 'n', 'e']
}

/// The engine, from the component names its version report lists: Podman
/// where one component is `Podman Engine`, Docker otherwise.
pub fn engine_type_of(components: &Vec<String>) -> (r: EngineType)
    ensures
        r == EngineType::Podman <==> exists|i: int|
            0 <= i < components@.len() && (#[trigger] components@[i])@ == word_podman_engine(),
{
    let mut i: usize = 0;
    while i < components.len()
        invariant
            i <= components@.len(),
            forall|k: int| 0 <= k < i ==> (#[trigger] components@[k])@ != word_podman_engine(),
        decreases components.len() - i,
    {
        proof {
            reveal_strlit("Podman Engine");
            assert("Podman Engine"@ =~= word_podman_engine());
        }
        if crate::text::same_text(components[i].as_str(), "Podman Engine") {
            return EngineType::Podman;
        }
        i = i + 1;
    }
    EngineType::Docker
}

} // verus!
