//! The files a challenge provides to players: which copies and archives a
//! provide entry asks for, how archives are written, and how a file is taken
//! out of the tar stream that the container engine hands back.
use vstd::prelude::*;

use crate::challenge::{strs, ProvideConfig, ProvideShape};
use crate::text::{file_name, file_name_of, join_path, joined, push_text, string_from};

verus! {

/// Errors while extracting provided files.
#[derive(Clone, Debug, PartialEq)]
pub enum ExtractError {
    /// The path has no final component to name the copy by.
    NoFileName { path: String },
    /// The archive downloaded for a container file holds no entry.
    NoFiles { container: String, path: String },
    /// The archive downloaded for a container file could not be read.
    BadDownload { container: String, path: String },
    /// The zip archive could not be written (such as two members of one name).
    Archive,
}

/// One step of producing provided files. Repository paths are on disk;
/// container paths are inside the challenge's container.
#[derive(Clone, Debug, PartialEq)]
pub enum ExtractStep {
    /// Copy a repository file.
    CopyRepo { from: String, to: String },
    /// Copy a file out of the container.
    CopyContainer { from: String, to: String },
    /// Zip repository files, each `(member name, path)`.
    ZipRepo { archive: String, members: Vec<(String, String)> },
    /// Zip container files, each `(member name, path)`.
    ZipContainer { archive: String, members: Vec<(String, String)> },
}

/// A step, as plain values.
pub enum StepView {
    CopyRepo { from: Seq<char>, to: Seq<char> },
    CopyContainer { from: Seq<char>, to: Seq<char> },
    ZipRepo { archive: Seq<char>, members: Seq<(Seq<char>, Seq<char>)> },
    ZipContainer { archive: Seq<char>, members: Seq<(Seq<char>, Seq<char>)> },
}

pub open spec fn members_view(m: Seq<(String, String)>) -> Seq<(Seq<char>, Seq<char>)> {
    m.map_values(|p: (String, String)| (p.0@, p.1@))
}

impl View for ExtractStep {
    type V = StepView;

    open spec fn view(&self) -> StepView {
        match self {
            ExtractStep::CopyRepo { from, to } => StepView::CopyRepo { from: from@, to: to@ },
            ExtractStep::CopyContainer { from, to } => StepView::CopyContainer {
                from: from@,
                to: to@,
            },
            ExtractStep::ZipRepo { archive, members } => StepView::ZipRepo {
                archive: archive@,
                members: members_view(members@),
            },
            ExtractStep::ZipContainer { archive, members } => StepView::ZipContainer {
                archive: archive@,
                members: members_view(members@),
            },
        }
    }
}

/// What extracting one provide entry takes: the container to open (by pod
/// name), the steps in order, and the paths of the files it yields.
#[derive(Clone, Debug, PartialEq)]
pub struct ExtractPlan {
    pub container: Option<String>,
    pub steps: Vec<ExtractStep>,
    pub produced: Vec<String>,
}

/// The plan, as plain values.
pub struct PlanView {
    pub container: Option<Seq<char>>,
    pub steps: Seq<StepView>,
    pub produced: Seq<Seq<char>>,
}

impl View for ExtractPlan {
    type V = PlanView;

    open spec fn view(&self) -> PlanView {
        PlanView {
            container: match self.container {
                Some(c) => Some(c@),
                None => None,
            },
            steps: self.steps@.map_values(|s: ExtractStep| s@),
            produced: strs(self.produced@),
        }
    }
}

/// Every path of `files` has a file name.
pub open spec fn all_named(files: Seq<Seq<char>>) -> bool {
    forall|i: int| 0 <= i < files.len() ==> (#[trigger] file_name_of(files[i])) is Some
}

/// The file name of each path (all named).
pub open spec fn names_of(files: Seq<Seq<char>>) -> Seq<Seq<char>> {
    files.map_values(|f: Seq<char>| file_name_of(f)->Some_0)
}

/// Each path placed under `dir`.
pub open spec fn under(dir: Seq<char>, files: Seq<Seq<char>>) -> Seq<Seq<char>> {
    files.map_values(|f: Seq<char>| joined(dir, f))
}

/// Archive members: each file's name, beside where it is read from.
pub open spec fn members_of(names: Seq<Seq<char>>, sources: Seq<Seq<char>>) -> Seq<
    (Seq<char>, Seq<char>),
> {
    Seq::new(names.len(), |i: int| (names[i], sources[i]))
}

/// The files that an entry needs named (those copied or zipped by name).
pub open spec fn needs_names(p: ProvideShape, dir: Seq<char>) -> Seq<Seq<char>> {
    match p {
        ProvideShape::RepoArchive { files, .. } => under(dir, files),
        ProvideShape::Container { files, .. } => files,
        ProvideShape::ContainerArchive { files, .. } => files,
        _ => Seq::empty(),
    }
}

/// The plan for the provide entry `p` of the challenge in `dir`. Repository
/// paths are relative to `dir`; copies and archives land in `dir`; a file
/// copied out of a container as it is keeps its file name; archive members
/// are named by file name only, in the order listed.
pub open spec fn plan_of(p: ProvideShape, dir: Seq<char>) -> PlanView {
    match p {
        ProvideShape::Repo { files } => PlanView {
            container: None,
            steps: Seq::empty(),
            produced: under(dir, files),
        },
        ProvideShape::RepoRename { from, to } => PlanView {
            container: None,
            steps: seq![StepView::CopyRepo { from: joined(dir, from), to: joined(dir, to) }],
            produced: seq![joined(dir, to)],
        },
        ProvideShape::RepoArchive { files, archive } => PlanView {
            container: None,
            steps: seq![
                StepView::ZipRepo {
                    archive: joined(dir, archive),
                    members: members_of(names_of(under(dir, files)), under(dir, files)),
                },
            ],
            produced: seq![joined(dir, archive)],
        },
        ProvideShape::Container { container, files } => PlanView {
            container: Some(container),
            steps: Seq::new(
                files.len(),
                |i: int|
                    StepView::CopyContainer {
                        from: files[i],
                        to: joined(dir, file_name_of(files[i])->Some_0),
                    },
            ),
            produced: under(dir, names_of(files)),
        },
        ProvideShape::ContainerRename { container, from, to } => PlanView {
            container: Some(container),
            steps: seq![StepView::CopyContainer { from, to: joined(dir, to) }],
            produced: seq![joined(dir, to)],
        },
        ProvideShape::ContainerArchive { container, files, archive } => PlanView {
            container: Some(container),
            steps: seq![
                StepView::ZipContainer {
                    archive: joined(dir, archive),
                    members: members_of(names_of(files), files),
                },
            ],
            produced: seq![joined(dir, archive)],
        },
    }
}

/// Each path of `files` placed under `dir`.
fn paths_under(dir: &str, files: &Vec<String>) -> (r: Vec<String>)
    ensures
        strs(r@) == under(dir@, strs(files@)),
{
    let mut out: Vec<String> = Vec::new();
    let mut i: usize = 0;
    while i < files.len()
        invariant
            i <= files@.len(),
            strs(out@) == under(dir@, strs(files@)).subrange(0, i as int),
        decreases files.len() - i,
    {
        let p = join_path(dir, files[i].as_str());
        let ghost before = out@;
        out.push(p);
        assert(strs(out@) =~= strs(before).push(p@));
        i = i + 1;
    }
    assert(under(dir@, strs(files@)).subrange(0, files@.len() as int) =~= under(dir@, strs(files@)));
    out
}

/// The file name of each path, or the first path that has none.
pub fn file_names(files: &Vec<String>) -> (r: Result<Vec<String>, ExtractError>)
    ensures
        r is Ok <==> all_named(strs(files@)),
        r is Ok ==> strs(r->Ok_0@) == names_of(strs(files@)),
        r is Err ==> r->Err_0 is NoFileName,
{
    let mut out: Vec<String> = Vec::new();
    let mut i: usize = 0;
    while i < files.len()
        invariant
            i <= files@.len(),
            all_named(strs(files@).subrange(0, i as int)),
            strs(out@) == names_of(strs(files@).subrange(0, i as int)),
        decreases files.len() - i,
    {
        match file_name(files[i].as_str()) {
            Some(n) => {
                let ghost before = out@;
                out.push(n);
                assert(strs(files@).subrange(0, i + 1) =~= strs(files@).subrange(0, i as int).push(
                    files@[i as int]@,
                ));
                assert(strs(out@) =~= strs(before).push(n@));
                assert(names_of(strs(files@).subrange(0, i + 1)) =~= names_of(
                    strs(files@).subrange(0, i as int),
                ).push(n@));
            },
            None => {
                assert(!all_named(strs(files@))) by {
                    assert(strs(files@)[i as int] == files@[i as int]@);
                }
                return Err(ExtractError::NoFileName { path: files[i].clone() });
            },
        }
        i = i + 1;
    }
    assert(strs(files@).subrange(0, files@.len() as int) =~= strs(files@));
    Ok(out)
}

/// Pairs each name with the path at the same place.
fn pair_up(names: &Vec<String>, paths: &Vec<String>) -> (r: Vec<(String, String)>)
    requires
        names@.len() == paths@.len(),
    ensures
        members_view(r@) == members_of(strs(names@), strs(paths@)),
{
    let mut out: Vec<(String, String)> = Vec::new();
    let mut i: usize = 0;
    while i < names.len()
        invariant
            names@.len() == paths@.len(),
            i <= names@.len(),
            members_view(out@) =~= members_of(strs(names@), strs(paths@)).subrange(0, i as int),
        decreases names.len() - i,
    {
        let ghost before = out@;
        out.push((names[i].clone(), paths[i].clone()));
        assert(strs(names@)[i as int] == names@[i as int]@);
        assert(strs(paths@)[i as int] == paths@[i as int]@);
        assert(members_view(out@) =~= members_view(before).push((names@[i as int]@, paths@[i as int]@)));
        i = i + 1;
    }
    out
}

/// What extracting the provide entry `provide` of the challenge in `dir`
/// takes, or the first path that a copy or an archive cannot be named by.
pub fn plan_extract_asset(dir: &str, provide: &ProvideConfig) -> (r: Result<ExtractPlan, ExtractError>)
    ensures
        r is Ok <==> all_named(needs_names(provide@, dir@)),
        r is Ok ==> r->Ok_0@ == plan_of(provide@, dir@),
        r is Err ==> r->Err_0 is NoFileName,
{
    match provide {
        ProvideConfig::FromRepo { files } => {
            let produced = paths_under(dir, files);
            let plan = ExtractPlan { container: None, steps: Vec::new(), produced };
            assert(plan@.steps =~= Seq::<StepView>::empty());
            Ok(plan)
        },
        ProvideConfig::FromRepoRename { from, to } => {
            let to_path = join_path(dir, to.as_str());
            let step = ExtractStep::CopyRepo { from: join_path(dir, from.as_str()), to: to_path.clone() };
            let plan = ExtractPlan { container: None, steps: vec![step], produced: vec![to_path] };
            assert(plan@.steps =~= seq![step@]);
            assert(plan@.produced =~= seq![to_path@]);
            Ok(plan)
        },
        ProvideConfig::FromRepoArchive { files, archive_name } => {
            let paths = paths_under(dir, files);
            let names = file_names(&paths)?;
            let archive = join_path(dir, archive_name.as_str());
            let step = ExtractStep::ZipRepo { archive: archive.clone(), members: pair_up(&names, &paths) };
            let plan = ExtractPlan { container: None, steps: vec![step], produced: vec![archive] };
            assert(plan@.steps =~= seq![step@]);
            assert(plan@.produced =~= seq![archive@]);
            Ok(plan)
        },
        ProvideConfig::FromContainer { container, files } => {
            let names = file_names(files)?;
            let produced = paths_under(dir, &names);
            let mut steps: Vec<ExtractStep> = Vec::new();
            let mut i: usize = 0;
            assert(strs(names@).len() == names@.len());
            assert(strs(produced@).len() == produced@.len());
            assert(names_of(strs(files@)).len() == files@.len());
            while i < files.len()
                invariant
                    i <= files@.len(),
                    names@.len() == files@.len(),
                    produced@.len() == files@.len(),
                    strs(names@) == names_of(strs(files@)),
                    strs(produced@) == under(dir@, names_of(strs(files@))),
                    steps@.len() == i,
                    forall|j: int|
                        0 <= j < i ==> (#[trigger] steps@[j])@ == (StepView::CopyContainer {
                            from: files@[j]@,
                            to: joined(dir@, file_name_of(files@[j]@)->Some_0),
                        }),
                decreases files.len() - i,
            {
                assert(produced@[i as int]@ == strs(produced@)[i as int]);
                assert(strs(files@)[i as int] == files@[i as int]@);
                steps.push(ExtractStep::CopyContainer { from: files[i].clone(), to: produced[i].clone() });
                i = i + 1;
            }
            let plan = ExtractPlan { container: Some(container.clone()), steps, produced };
            assert(plan@.steps =~= plan_of(provide@, dir@).steps);
            Ok(plan)
        },
        ProvideConfig::FromContainerRename { container, from, to } => {
            let to_path = join_path(dir, to.as_str());
            let step = ExtractStep::CopyContainer { from: from.clone(), to: to_path.clone() };
            let plan = ExtractPlan {
                container: Some(container.clone()),
                steps: vec![step],
                produced: vec![to_path],
            };
            assert(plan@.steps =~= seq![step@]);
            assert(plan@.produced =~= seq![to_path@]);
            Ok(plan)
        },
        ProvideConfig::FromContainerArchive { container, files, archive_name } => {
            let names = file_names(files)?;
            let archive = join_path(dir, archive_name.as_str());
            let step = ExtractStep::ZipContainer { archive: archive.clone(), members: pair_up(&names, files) };
            let plan = ExtractPlan {
                container: Some(container.clone()),
                steps: vec![step],
                produced: vec![archive],
            };
            assert(plan@.steps =~= seq![step@]);
            assert(plan@.produced =~= seq![archive@]);
            Ok(plan)
        },
    }
}

/// The views of a list of byte vectors.
pub open spec fn bytes_view(v: Seq<Vec<u8>>) -> Seq<Seq<u8>> {
    v.map_values(|b: Vec<u8>| b@)
}

/// Archive members: each name beside the bytes at the same place.
pub open spec fn archive_members(names: Seq<Seq<char>>, contents: Seq<Seq<u8>>) -> Seq<
    (Seq<char>, Seq<u8>),
> {
    Seq::new(names.len(), |i: int| (names[i], contents[i]))
}

/// The bytes zip writes for the members `(name, bytes)` in this order, or
/// `None` where it refuses them.
pub uninterp spec fn zip_of(members: Seq<(Seq<char>, Seq<u8>)>) -> Option<Seq<u8>>;

pub open spec fn named_bytes_view(m: Seq<(String, Vec<u8>)>) -> Seq<(Seq<char>, Seq<u8>)> {
    m.map_values(|p: (String, Vec<u8>)| (p.0@, p.1@))
}

/// Relies on zip's `ZipWriter` (`start_file`, `write_all`, `finish`) over an
/// in-memory buffer, with default file options: the members are written in
/// order. The crate is built without its `time` feature, so every member is
/// stamped with the fixed default date and the bytes are a function of the
/// members.
#[verifier::external_body]
fn write_zip(members: &Vec<(String, Vec<u8>)>) -> (r: Option<Vec<u8>>)
    ensures
        r is Some <==> zip_of(named_bytes_view(members@)) is Some,
        r is Some ==> r->Some_0@ == zip_of(named_bytes_view(members@))->Some_0,
{
    let mut z = zip::ZipWriter::new(std::io::Cursor::new(Vec::new()));
    for m in members.iter() {
        z.start_file(m.0.as_str(), zip::write::SimpleFileOptions::default()).ok()?;
        std::io::Write::write_all(&mut z, &m.1).ok()?;
    }
    z.finish().ok().map(|c| c.into_inner())
}

/// The archive of `files` with the bytes `contents`, members named by file
/// name only, in the listed order.
pub open spec fn archive_of(files: Seq<Seq<char>>, contents: Seq<Seq<u8>>) -> Option<Seq<u8>> {
    zip_of(archive_members(names_of(files), contents))
}

/// Zips the files `files`, whose bytes are `contents`, into one archive.
/// Each member is named by the file name of its path alone, in the order
/// listed.
pub fn zip_files(files: &Vec<String>, contents: &Vec<Vec<u8>>) -> (r: Result<Vec<u8>, ExtractError>)
    requires
        files@.len() == contents@.len(),
    ensures
        r is Ok <==> all_named(strs(files@)) && archive_of(strs(files@), bytes_view(contents@)) is Some,
        r is Ok ==> r->Ok_0@ == archive_of(strs(files@), bytes_view(contents@))->Some_0,
        r is Err ==> (r->Err_0 is NoFileName <==> !all_named(strs(files@))),
        r is Err ==> (r->Err_0 is Archive <==> all_named(strs(files@))),
{
    let names = file_names(files)?;
    let mut members: Vec<(String, Vec<u8>)> = Vec::new();
    let mut i: usize = 0;
    while i < names.len()
        invariant
            names@.len() == contents@.len(),
            i <= names@.len(),
            named_bytes_view(members@) =~= archive_members(strs(names@), bytes_view(contents@)).subrange(
                0,
                i as int,
            ),
        decreases names.len() - i,
    {
        let ghost before = members@;
        members.push((names[i].clone(), contents[i].clone()));
        assert(strs(names@)[i as int] == names@[i as int]@);
        assert(bytes_view(contents@)[i as int] == contents@[i as int]@);
        assert(named_bytes_view(members@) =~= named_bytes_view(before).push(
            (names@[i as int]@, contents@[i as int]@),
        ));
        i = i + 1;
    }
    assert(named_bytes_view(members@) =~= archive_members(strs(names@), bytes_view(contents@)));
    match write_zip(&members) {
        Some(bytes) => Ok(bytes),
        None => Err(ExtractError::Archive),
    }
}

/// Zipping the same files with the same bytes twice gives the same archive:
/// its members are the files' names in the listed order, whatever order a
/// directory listing would give.
pub proof fn lemma_archive_idempotent(
    files: Seq<Seq<char>>,
    contents1: Seq<Seq<u8>>,
    contents2: Seq<Seq<u8>>,
)
    requires
        files.len() == contents1.len(),
        contents1 == contents2,
        all_named(files),
    ensures
        archive_of(files, contents1) == archive_of(files, contents2),
        forall|i: int|
            0 <= i < files.len() ==> #[trigger] archive_members(names_of(files), contents1)[i] == (
            file_name_of(files[i])->Some_0,
            contents1[i],
        ),
{
}

/// The first entry of the tar archive `b`: `None` where it cannot be read,
/// `Some(None)` where it holds no entry.
pub uninterp spec fn tar_first_of(b: Seq<u8>) -> Option<Option<Seq<u8>>>;

/// Relies on tar's `Archive::entries`: reads the first entry's bytes, if
/// there is an entry.
#[verifier::external_body]
fn first_tar_entry(download: &Vec<u8>) -> (r: Option<Option<Vec<u8>>>)
    ensures
        r is None <==> tar_first_of(download@) is None,
        r is Some ==> (r->Some_0 is None <==> tar_first_of(download@)->Some_0 is None),
        r is Some && r->Some_0 is Some ==> r->Some_0->Some_0@ == tar_first_of(
            download@,
        )->Some_0->Some_0,
{
    let mut archive = tar::Archive::new(download.as_slice());
    let mut entries = archive.entries().ok()?;
    match entries.next() {
        None => Some(None),
        Some(entry) => {
            let mut entry = entry.ok()?;
            let mut out = Vec::new();
            std::io::Read::read_to_end(&mut entry, &mut out).ok()?;
            Some(Some(out))
        },
    }
}

/// The bytes of the file `from` of `container`, out of the tar archive
/// `download` that the engine handed back for it. The archive holds one
/// entry; one that holds none is an error, never an empty file.
pub fn copy_file_contents(container: &str, from: &str, download: &Vec<u8>) -> (r: Result<
    Vec<u8>,
    ExtractError,
>)
    ensures
        r is Ok <==> tar_first_of(download@) matches Some(Some(_)),
        r is Ok ==> r->Ok_0@ == tar_first_of(download@)->Some_0->Some_0,
        r is Err ==> (r->Err_0 is NoFiles <==> tar_first_of(download@) == Some(None::<Seq<u8>>)),
        r is Err ==> (r->Err_0 is BadDownload <==> tar_first_of(download@) is None),
        r matches Err(ExtractError::NoFiles { container: c, path: p }) ==> c@ == container@ && p@
            == from@,
{
    match first_tar_entry(download) {
        Some(Some(bytes)) => Ok(bytes),
        Some(None) => Err(ExtractError::NoFiles { container: container.to_owned(), path: from.to_owned() }),
        None => Err(ExtractError::BadDownload { container: container.to_owned(), path: from.to_owned() }),
    }
}

/// ASCII letters and digits.
pub open spec fn is_alnum(c: char) -> bool {
    ('a' <= c && c <= 'z') || ('A' <= c && c <= 'Z') || ('0' <= c && c <= '9')
}

/// Relies on `fastrand::alphanumeric`: a random character among `a-z`,
/// `A-Z` and `0-9`.
#[verifier::external_body]
fn random_alphanumeric() -> (r: char)
    ensures
        is_alnum(r),
{
    fastrand::alphanumeric()
}

/// Six random letters or digits, which keep the names of containers made at
/// the same time apart.
pub fn random_discriminator() -> (r: String)
    ensures
        r@.len() == 6,
        forall|i: int| 0 <= i < 6 ==> is_alnum(#[trigger] r@[i]),
{
    let mut cs: Vec<char> = Vec::new();
    while cs.len() < 6
        invariant
            cs@.len() <= 6,
            forall|i: int| 0 <= i < cs@.len() ==> is_alnum(#[trigger] cs@[i]),
        decreases 6 - cs@.len(),
    {
        cs.push(random_alphanumeric());
    }
    string_from(&cs)
}

pub open spec fn container_prefix() -> Seq<char> {
    seq!['a', 's', 's', 'e', 't', '-', 'c', 'o', 'n', 't', 'a', 'i', 'n', 'e', 'r', '-']
}

/// The name of the throwaway container that files of `container` are
/// copied from: `asset-container-<slug>-<container>-<discriminator>`.
pub fn asset_container_name(slug: &str, container: &str, discriminator: &str) -> (r: String)
    ensures
        r@ == container_prefix() + slug@ + seq!['-'] + container@ + seq!['-'] + discriminator@,
{
    proof {
        reveal_strlit("asset-container-");
    }
    let mut cs: Vec<char> = Vec::new();
    push_text(&mut cs, "asset-container-");
    push_text(&mut cs, slug);
    cs.push('-');
    push_text(&mut cs, container);
    cs.push('-');
    push_text(&mut cs, discriminator);
    let ghost a = container_prefix() + slug@;
    assert(cs@ =~= container_prefix() + slug@ + seq!['-'] + container@ + seq!['-'] + discriminator@);
    string_from(&cs)
}

} // verus!
