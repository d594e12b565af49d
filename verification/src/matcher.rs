//! Selection of the release assets that fit a desired deployment target.
//!
//! Every candidate asset is classified by its filename, then kept only when
//! its derived target equals the desired one and none of the skip predicates
//! fires: a checksum/signature/readme extension, a size at or below the
//! minimum asset size, or a skip-listed MIME essence.  Dropping a candidate
//! is a normal outcome, not an error, and the surviving assets keep their
//! input order.

use vstd::prelude::*;

use crate::app_downloader::{
    deployment_of, filetype_name, os_name, arch_name, target_of, Target, TargetDeployment,
};
use crate::text::{chars_of, ends_with_chars, has_suffix, str_eq};

verus! {

/// Assets at or below this many bytes are never offered: it filters tiny
/// stub or checksum files that slipped past the extension skip list.
pub const MIN_ASSET_SIZE: u64 = 64 * 1024;

/// A release asset as the release-listing collaborator reports it, reduced
/// to plain values: name, optional label, download URL, declared content
/// type, and size in bytes.
pub struct CandidateAsset {
    pub name: String,
    pub label: Option<String>,
    pub url: String,
    pub content_type: String,
    pub size: u64,
}

/// The mathematical value of a [`CandidateAsset`].
#[verifier::ext_equal]
pub struct CandidateAssetView {
    pub name: Seq<char>,
    pub label: Option<Seq<char>>,
    pub url: Seq<char>,
    pub content_type: Seq<char>,
    pub size: u64,
}

impl View for CandidateAsset {
    type V = CandidateAssetView;

    open spec fn view(&self) -> CandidateAssetView {
        CandidateAssetView {
            name: self.name@,
            label: match self.label {
                Some(l) => Some(l@),
                None => None,
            },
            url: self.url@,
            content_type: self.content_type@,
            size: self.size,
        }
    }
}

impl DeepView for CandidateAsset {
    type V = CandidateAssetView;

    open spec fn deep_view(&self) -> CandidateAssetView {
        self.view()
    }
}

/// An asset offered for download: the candidate's fields plus its full
/// classification.  Produced once per candidate and never mutated.
pub struct DownloadInfo {
    pub name: String,
    pub label: String,
    pub url: String,
    pub content_type: String,
    pub size: u64,
    pub target: Target,
}

/// The mathematical value of a [`DownloadInfo`].
#[verifier::ext_equal]
pub struct DownloadInfoView {
    pub name: Seq<char>,
    pub label: Seq<char>,
    pub url: Seq<char>,
    pub content_type: Seq<char>,
    pub size: u64,
    pub target: Target,
}

impl View for DownloadInfo {
    type V = DownloadInfoView;

    open spec fn view(&self) -> DownloadInfoView {
        DownloadInfoView {
            name: self.name@,
            label: self.label@,
            url: self.url@,
            content_type: self.content_type@,
            size: self.size,
            target: self.target,
        }
    }
}

impl DeepView for DownloadInfo {
    type V = DownloadInfoView;

    open spec fn deep_view(&self) -> DownloadInfoView {
        self.view()
    }
}

/// The essence of a MIME string — its type and subtype, parameters ignored —
/// or nothing when the string is not a well-formed MIME type.  The value is
/// whatever the mime parser derives; it is a function of the string alone.
pub uninterp spec fn mime_essence(s: Seq<char>) -> Option<Seq<char>>;

/// Relies on mime's `FromStr` for `mime::Mime` and on
/// `mime::Mime::essence_str`: parsing is deterministic, and the essence —
/// the type and subtype without parameters — is a function of the input
/// string alone; an unparseable string has no essence.
#[verifier::external_body]
fn content_essence(s: &str) -> (r: Option<String>)
    ensures
        (r matches Some(e) ==> mime_essence(s@) == Some(e@)),
        (r is None ==> mime_essence(s@) is None),
{
    match s.parse::<mime::Mime>() {
        Ok(m) => Some(m.essence_str().to_string()),
        Err(_) => None,
    }
}

/// The classification of one candidate: the candidate's plain fields (a
/// missing label becomes the empty string) together with the target derived
/// from its name.
pub open spec fn download_info_of(a: CandidateAssetView) -> DownloadInfoView {
    DownloadInfoView {
        name: a.name,
        label: match a.label {
            Some(l) => l,
            None => Seq::empty(),
        },
        url: a.url,
        content_type: a.content_type,
        size: a.size,
        target: target_of(a.name),
    }
}

/// The fixed skip list of checksum, signature and readme extensions.
pub open spec fn has_skippable_extension(name: Seq<char>) -> bool {
    ||| has_suffix(name, ".asc"@)
    ||| has_suffix(name, ".md5"@)
    ||| has_suffix(name, ".sha1"@)
    ||| has_suffix(name, ".sha256"@)
    ||| has_suffix(name, ".sha512"@)
    ||| has_suffix(name, ".sig"@)
    ||| has_suffix(name, ".txt"@)
}

/// The fixed skip list of MIME essences; only `text/plain` is excluded.
pub open spec fn has_skippable_mimetype(content_type: Seq<char>) -> bool {
    mime_essence(content_type) == Some("text/plain"@)
}

/// A candidate is offered exactly when its derived target equals the desired
/// one and no skip predicate fires.
pub open spec fn keep_candidate(a: CandidateAssetView, desired: TargetDeployment) -> bool {
    &&& deployment_of(a.name) == desired
    &&& !has_skippable_extension(a.name)
    &&& a.size > MIN_ASSET_SIZE
    &&& !has_skippable_mimetype(a.content_type)
}

/// The classifications of the candidates that are kept, in input order.
pub open spec fn matched_downloads(s: Seq<CandidateAssetView>, desired: TargetDeployment) -> Seq<
    DownloadInfoView,
>
    decreases s.len(),
{
    if s.len() == 0 {
        Seq::empty()
    } else if keep_candidate(s[0], desired) {
        seq![download_info_of(s[0])] + matched_downloads(s.drop_first(), desired)
    } else {
        matched_downloads(s.drop_first(), desired)
    }
}

impl DownloadInfo {
    /// Classify one candidate asset.
    pub fn from_asset(asset: &CandidateAsset) -> (r: DownloadInfo)
        ensures
            r.deep_view() == download_info_of(asset.deep_view()),
    {
        let r = DownloadInfo {
            name: asset.name.clone(),
            label: match &asset.label {
                Some(l) => l.clone(),
                None => String::new(),
            },
            url: asset.url.clone(),
            content_type: asset.content_type.clone(),
            size: asset.size,
            target: Target::identify(asset.name.as_str()),
        };
        proof {
            assert(r.deep_view() =~= download_info_of(asset.deep_view()));
        }
        r
    }

    /// A human-readable rendering: `[name](url) for <target> as a <kind>`.
    pub fn describe(&self) -> (r: String)
        ensures
            r@ == "["@ + self.name@ + "]("@ + self.url@ + ") for "@ + os_name(
                self.target.deployment.os,
            ) + "-"@ + arch_name(self.target.deployment.arch) + " as a "@ + filetype_name(
                self.target.filetype,
            ),
    {
        let deployment = self.target.deployment.name();
        let kind = self.target.filetype.name();
        let r = String::from_str("[").concat(self.name.as_str()).concat("](").concat(
            self.url.as_str(),
        ).concat(") for ").concat(deployment.as_str()).concat(" as a ").concat(kind.as_str());
        proof {
            assert(r@ =~= "["@ + self.name@ + "]("@ + self.url@ + ") for "@ + os_name(
                self.target.deployment.os,
            ) + "-"@ + arch_name(self.target.deployment.arch) + " as a "@ + filetype_name(
                self.target.filetype,
            ));
        }
        r
    }
}

/// Whether the asset's filename ends with a skip-listed extension.
fn extension_skippable(name: &str) -> (r: bool)
    ensures
        r == has_skippable_extension(name@),
{
    let cs = chars_of(name);
    ends_with_chars(&cs, &chars_of(".asc")) || ends_with_chars(&cs, &chars_of(".md5"))
        || ends_with_chars(&cs, &chars_of(".sha1")) || ends_with_chars(&cs, &chars_of(".sha256"))
        || ends_with_chars(&cs, &chars_of(".sha512")) || ends_with_chars(&cs, &chars_of(".sig"))
        || ends_with_chars(&cs, &chars_of(".txt"))
}

/// Whether the declared content type's essence is skip-listed.
fn mimetype_skippable(content_type: &str) -> (r: bool)
    ensures
        r == has_skippable_mimetype(content_type@),
{
    match content_essence(content_type) {
        Some(essence) => str_eq(essence.as_str(), "text/plain"),
        None => false,
    }
}

/// Classify every candidate and keep the ones that fit the desired target:
/// the derived target must equal `desired` (an unknown target never matches
/// a concrete one), the filename must not carry a skip-listed extension, the
/// size must exceed [`MIN_ASSET_SIZE`], and the content type's essence must
/// not be skip-listed.  The result preserves input order; an empty result is
/// a normal outcome.
pub fn match_assets(candidates: &Vec<CandidateAsset>, desired: &TargetDeployment) -> (r: Vec<
    DownloadInfo,
>)
    ensures
        r.deep_view() == matched_downloads(candidates.deep_view(), *desired),
{
    let ghost all = candidates.deep_view();
    let mut matched: Vec<DownloadInfo> = Vec::new();
    proof {
        assert(all.skip(0) =~= all);
        assert(matched.deep_view() + matched_downloads(all, *desired) =~= matched_downloads(
            all,
            *desired,
        ));
    }
    let mut i: usize = 0;
    while i < candidates.len()
        invariant
            0 <= i <= candidates@.len(),
            all == candidates.deep_view(),
            all.len() == candidates@.len(),
            matched.deep_view() + matched_downloads(all.skip(i as int), *desired)
                == matched_downloads(all, *desired),
        decreases candidates@.len() - i,
    {
        let ghost suffix = all.skip(i as int);
        proof {
            assert(suffix[0] == candidates@[i as int].deep_view());
            assert(suffix.drop_first() =~= all.skip(i + 1));
        }
        let asset = &candidates[i];
        let download_info = DownloadInfo::from_asset(asset);
        let is_target = download_info.target.deployment == *desired;
        let skip_extension = extension_skippable(download_info.name.as_str());
        let skip_mimetype = mimetype_skippable(download_info.content_type.as_str());
        let is_big_enough = download_info.size > MIN_ASSET_SIZE;
        if is_target && !skip_extension && is_big_enough && !skip_mimetype {
            let ghost prev = matched.deep_view();
            matched.push(download_info);
            proof {
                assert(keep_candidate(suffix[0], *desired));
                assert(matched.deep_view() =~= prev.push(download_info_of(suffix[0])));
                assert(matched.deep_view() + matched_downloads(suffix.drop_first(), *desired)
                    =~= prev + matched_downloads(suffix, *desired));
            }
        } else {
            proof {
                assert(!keep_candidate(suffix[0], *desired));
                assert(matched_downloads(suffix, *desired) == matched_downloads(
                    suffix.drop_first(),
                    *desired,
                ));
            }
        }
        i += 1;
    }
    proof {
        assert(all.skip(all.len() as int) =~= Seq::<CandidateAssetView>::empty());
        assert(matched.deep_view() + Seq::<DownloadInfoView>::empty() =~= matched.deep_view());
    }
    matched
}

} // verus!
