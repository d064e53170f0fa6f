//! Fetching one source: where it comes from, where it goes, and whether the
//! bytes on disk may be used.
//!
//! The library plans and judges; the caller probes the disk and downloads.
//! A file that is already on disk under the target name and has the declared
//! digest is used as it is, without any download. A download whose bytes do
//! not have the declared digest is refused.

use std::borrow::Cow;
use vstd::prelude::*;
use vstd::string::StringExecFns;

use crate::checksum::{agrees, parsed, Checksum, ChecksumView};
use crate::error::{fault, BuildError, ErrorKind, ErrorView};
use crate::extract::{file_name, lemma_file_name_is_bare};
use crate::package::{text_of, Info, InfoView, Source, SourceView};
use crate::substitute::{replace_vars, substituted};
use crate::text::{after_last, chars_of, string_of};

verus! {

/// The path of the URL `url`, as `url::Url::parse` and `url::Url::path` give
/// it; `None` where `url` does not parse as an absolute URL.
pub uninterp spec fn url_path(url: Seq<char>) -> Option<Seq<char>>;

/// `url::Url::parse`, then `url::Url::path`: the path of the parsed URL, or
/// `None` where parsing fails.
#[verifier::external_body]
fn parse_url_path(url: &str) -> (path: Option<String>)
    ensures
        text_of(path) == url_path(url@),
{
    match url::Url::parse(url) {
        Ok(parsed) => Some(parsed.path().to_string()),
        Err(_) => None,
    }
}

/// The file that the URL path `path` names: its last segment. A path that
/// does not start with `/` has no segments, and an empty last segment names
/// no file.
pub open spec fn target_of(path: Seq<char>) -> Option<Seq<char>> {
    if path.len() > 0 && path[0] == '/' && file_name(path).len() > 0 {
        Some(file_name(path))
    } else {
        None
    }
}

/// The file that a URL path names has a name that is not empty and holds no
/// `/`: it lies in the working directory itself.
pub proof fn lemma_target_is_bare(path: Seq<char>)
    ensures
        target_of(path) matches Some(target) ==> target.len() > 0 && !target.contains('/'),
{
    lemma_file_name_is_bare(path);
}

/// What is to be done for one source.
#[derive(Debug, Clone, PartialEq, Eq)]
pub struct FetchPlan {
    /// The URL to download from, with its placeholders resolved.
    pub url: String,
    /// The name of the local file, in the working directory.
    pub target: String,
    /// The digest that the file must have.
    pub checksum: Checksum,
}

/// The mathematical content of a [`FetchPlan`].
pub struct FetchPlanView {
    pub url: Seq<char>,
    pub target: Seq<char>,
    pub checksum: ChecksumView,
}

impl View for FetchPlan {
    type V = FetchPlanView;

    open spec fn view(&self) -> FetchPlanView {
        FetchPlanView { url: self.url@, target: self.target@, checksum: self.checksum@ }
    }
}

/// The plan for `source`: its URL with the placeholders resolved, the last
/// segment of the URL's path as the target, and its checksum. The first of
/// these that cannot be had is the error: substitution, then the URL, then
/// the checksum.
pub open spec fn planned(source: SourceView, info: InfoView) -> Result<FetchPlanView, ErrorView> {
    match substituted(source.url, info) {
        Err(e) => Err(e),
        Ok(url) => {
            let target = match url_path(url) {
                Some(path) => target_of(path),
                None => None,
            };
            match target {
                None => Err(fault(ErrorKind::MalformedUrl, url)),
                Some(target) => match parsed(source.checksum) {
                    Err(e) => Err(e),
                    Ok(checksum) => Ok(FetchPlanView { url, target, checksum }),
                },
            }
        },
    }
}

/// The file that the URL `url` names.
fn url_target(url: &str) -> (target: Option<String>)
    ensures
        text_of(target) == match url_path(url@) {
            Some(path) => target_of(path),
            None => None,
        },
{
    match parse_url_path(url) {
        None => None,
        Some(path) => {
            let chars = chars_of(path.as_str());
            if chars.len() == 0 || chars[0] != '/' {
                return None;
            }
            let start = after_last(&chars, '/');
            if start == chars.len() {
                None
            } else {
                Some(string_of(&chars, start, chars.len()))
            }
        },
    }
}

/// Plans the fetch of `source`, before anything touches the disk or the
/// network.
pub fn plan_fetch(source: &Source, info: &Info) -> (result: Result<FetchPlan, BuildError>)
    ensures
        match result {
            Ok(plan) => planned(source@, info@) == Ok::<FetchPlanView, ErrorView>(plan@),
            Err(e) => planned(source@, info@) == Err::<FetchPlanView, ErrorView>(e@),
        },
{
    let url = match replace_vars(source.url.as_str(), info) {
        Ok(Cow::Borrowed(url)) => String::from_str(url),
        Ok(Cow::Owned(url)) => url,
        Err(e) => {
            return Err(e);
        },
    };
    let target = match url_target(url.as_str()) {
        Some(target) => target,
        None => {
            return Err(BuildError::new(ErrorKind::MalformedUrl, url));
        },
    };
    match Checksum::parse(source.checksum.as_str()) {
        Ok(checksum) => Ok(FetchPlan { url, target, checksum }),
        Err(e) => Err(e),
    }
}

/// What to do about a source once the disk has been probed.
#[derive(Debug, Clone, Copy, PartialEq, Eq, Structural)]
pub enum FetchDecision {
    /// The file on disk has the declared digest: use it, download nothing.
    UseCached,
    /// There is no such file, or it has another digest: download it.
    Download,
}

/// Whether the file found on disk, if any, spares the download.
pub open spec fn cache_hit(existing: Option<Seq<u8>>, checksum: ChecksumView) -> bool {
    existing is Some && agrees(checksum, existing->0)
}

/// Decides whether a source must be downloaded, given the content of the
/// target file if it exists.
pub fn cache_decision(existing: Option<&[u8]>, checksum: &Checksum) -> (decision: FetchDecision)
    ensures
        decision == FetchDecision::UseCached <==> existing is Some && agrees(
            checksum@,
            existing->0@,
        ),
{
    match existing {
        Some(data) => if checksum.matches(data) {
            FetchDecision::UseCached
        } else {
            FetchDecision::Download
        },
        None => FetchDecision::Download,
    }
}

/// Judges the bytes that a download left on disk: they are accepted if and
/// only if they have the declared digest.
pub fn verify_download(data: &[u8], plan: &FetchPlan) -> (result: Result<(), BuildError>)
    ensures
        result is Ok <==> agrees(plan@.checksum, data@),
        result matches Err(e) ==> e@ == fault(ErrorKind::ChecksumMismatch, plan@.url),
{
    if plan.checksum.matches(data) {
        Ok(())
    } else {
        Err(BuildError::new(ErrorKind::ChecksumMismatch, plan.url.clone()))
    }
}

} // verus!
