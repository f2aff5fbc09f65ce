//! Publishing extracted files to the object store: where each file goes in
//! the bucket and the public address it gets there.
use vstd::prelude::*;

use crate::builder::{join_all, BuildResult};
use crate::challenge::strs;
use crate::text::{file_name, file_name_of, push_text, string_from};

verus! {

/// The addresses of a challenge's published files.
#[derive(Clone, Debug, PartialEq)]
pub struct S3DeployResult {
    pub uploaded_asset_urls: Vec<String>,
}

/// Errors of publishing.
#[derive(Clone, Debug, PartialEq)]
pub enum PublishError {
    /// The asset path has no file name to key it by.
    NoFileName { path: String },
    /// Uploading `file` failed.
    Upload { file: String, message: String },
}

pub open spec fn word_assets() -> Seq<char> {
    seq!['a', 's', 's', 'e', 't', 's', '/']
}

/// The bucket key of a file named `name` of the challenge in `dir`:
/// `assets/<dir>/<name>`.
pub open spec fn key_of(dir: Seq<char>, name: Seq<char>) -> Seq<char> {
    word_assets() + dir + seq!['/'] + name
}

/// The bucket key of the asset at `asset` of the challenge in `dir`, or the
/// asset path where it has no file name.
pub fn bucket_key(dir: &str, asset: &str) -> (r: Result<String, PublishError>)
    ensures
        r is Ok <==> file_name_of(asset@) is Some,
        r is Ok ==> r->Ok_0@ == key_of(dir@, file_name_of(asset@)->Some_0),
        r matches Err(PublishError::NoFileName { path }) ==> path@ == asset@,
        r is Err ==> r->Err_0 is NoFileName,
{
    let name = match file_name(asset) {
        Some(n) => n,
        None => {
            return Err(PublishError::NoFileName { path: asset.to_owned() });
        },
    };
    proof {
        reveal_strlit("assets/");
        assert("assets/"@ =~= word_assets());
    }
    let mut cs: Vec<char> = Vec::new();
    push_text(&mut cs, "assets/");
    push_text(&mut cs, dir);
    cs.push('/');
    push_text(&mut cs, name.as_str());
    assert(cs@ =~= key_of(dir@, name@));
    Ok(string_from(&cs))
}

pub open spec fn word_https() -> Seq<char> {
    seq!['h', 't', 't', 'p', 's', ':', '/', '/']
}

pub open spec fn word_s3() -> Seq<char> {
    seq!['.', 's', '3', '.']
}

pub open spec fn word_aws() -> Seq<char> {
    seq!['.', 'a', 'm', 'a', 'z', 'o', 'n', 'a', 'w', 's', '.', 'c', 'o', 'm', '/']
}

/// The public address of `key` in `bucket`:
/// `https://<bucket>.s3.<region>.amazonaws.com/<key>`.
pub open spec fn url_of(bucket: Seq<char>, region: Seq<char>, key: Seq<char>) -> Seq<char> {
    word_https() + bucket + word_s3() + region + word_aws() + key
}

pub fn public_url(bucket: &str, region: &str, key: &str) -> (r: String)
    ensures
        r@ == url_of(bucket@, region@, key@),
{
    proof {
        reveal_strlit("https://");
        reveal_strlit(".s3.");
        reveal_strlit(".amazonaws.com/");
        assert("https://"@ =~= word_https());
        assert(".s3."@ =~= word_s3());
        assert(".amazonaws.com/"@ =~= word_aws());
    }
    let mut cs: Vec<char> = Vec::new();
    push_text(&mut cs, "https://");
    push_text(&mut cs, bucket);
    push_text(&mut cs, ".s3.");
    push_text(&mut cs, region);
    push_text(&mut cs, ".amazonaws.com/");
    push_text(&mut cs, key);
    assert(cs@ =~= url_of(bucket@, region@, key@));
    string_from(&cs)
}

/// One upload: the file on disk, its bucket key and its public address.
#[derive(Clone, Debug, PartialEq)]
pub struct Upload {
    pub file: String,
    pub key: String,
    pub url: String,
}

/// Every asset path has a file name.
pub open spec fn assets_named(assets: Seq<Seq<char>>) -> bool {
    forall|i: int| 0 <= i < assets.len() ==> (#[trigger] file_name_of(assets[i])) is Some
}

/// The uploads of the assets of `build` for the challenge in `dir`, one per
/// asset in order, into the bucket `bucket` of `region`.
pub fn plan_uploads(dir: &str, bucket: &str, region: &str, build: &BuildResult) -> (r: Result<
    Vec<Upload>,
    PublishError,
>)
    ensures
        r is Ok <==> assets_named(strs(build.assets@)),
        r is Err ==> r->Err_0 is NoFileName,
        r is Ok ==> r->Ok_0@.len() == build.assets@.len() && forall|i: int|
            0 <= i < build.assets@.len() ==> {
                let u = #[trigger] r->Ok_0@[i];
                let key = key_of(dir@, file_name_of(build.assets@[i]@)->Some_0);
                u.file@ == build.assets@[i]@ && u.key@ == key && u.url@ == url_of(bucket@, region@, key)
            },
{
    let mut out: Vec<Upload> = Vec::new();
    let mut i: usize = 0;
    while i < build.assets.len()
        invariant
            i <= build.assets@.len(),
            out@.len() == i,
            forall|k: int| 0 <= k < i ==> (#[trigger] file_name_of(build.assets@[k]@)) is Some,
            forall|k: int|
                0 <= k < i ==> {
                    let u = #[trigger] out@[k];
                    let key = key_of(dir@, file_name_of(build.assets@[k]@)->Some_0);
                    u.file@ == build.assets@[k]@ && u.key@ == key && u.url@ == url_of(
                        bucket@,
                        region@,
                        key,
                    )
                },
        decreases build.assets.len() - i,
    {
        let asset = &build.assets[i];
        let key = match bucket_key(dir, asset.as_str()) {
            Ok(k) => k,
            Err(e) => {
                assert(strs(build.assets@)[i as int] == build.assets@[i as int]@);
                return Err(e);
            },
        };
        let url = public_url(bucket, region, key.as_str());
        out.push(Upload { file: asset.clone(), key, url });
        i = i + 1;
    }
    assert forall|k: int| 0 <= k < strs(build.assets@).len() implies (#[trigger] file_name_of(
        strs(build.assets@)[k],
    )) is Some by {
        assert(strs(build.assets@)[k] == build.assets@[k]@);
    }
    Ok(out)
}

/// The result of publishing a challenge's files: every address, in asset
/// order, or the first failed upload.
pub fn collect_uploads(outcomes: Vec<Result<String, PublishError>>) -> (r: Result<
    S3DeployResult,
    PublishError,
>)
    ensures
        r is Ok <==> forall|i: int| 0 <= i < outcomes@.len() ==> (#[trigger] outcomes@[i]) is Ok,
        r is Ok ==> r->Ok_0.uploaded_asset_urls@.len() == outcomes@.len() && forall|i: int|
            0 <= i < outcomes@.len() ==> #[trigger] r->Ok_0.uploaded_asset_urls@[i]
                == outcomes@[i]->Ok_0,
        r is Err ==> exists|i: int|
            0 <= i < outcomes@.len() && (#[trigger] outcomes@[i]) is Err && r->Err_0
                == outcomes@[i]->Err_0,
{
    let urls = join_all(outcomes)?;
    Ok(S3DeployResult { uploaded_asset_urls: urls })
}

} // verus!
