//! The repository behind a volume: the options a volume is created with, and
//! what is left of them once they have been checked.

use crate::text::{begins_with, copy_text, has_prefix, text_of};
use vstd::prelude::*;
use vstd::string::StringExecFns;

verus! {

/// The options of a volume as they are given: unchecked text.
#[derive(Debug)]
pub struct RawRepo {
    /// Where the repository is cloned from.
    pub url: Option<String>,
    /// The branch to check out.
    pub branch: Option<String>,
    /// The tag to check out.
    pub tag: Option<String>,
    /// `"true"` for a fetch on each mount of a cloned volume.
    pub refetch: Option<String>,
}

/// The text of a `RawRepo`.
pub struct RawRepoView {
    pub url: Option<Seq<char>>,
    pub branch: Option<Seq<char>>,
    pub tag: Option<Seq<char>>,
    pub refetch: Option<Seq<char>>,
}

impl View for RawRepo {
    type V = RawRepoView;

    open spec fn view(&self) -> RawRepoView {
        RawRepoView {
            url: text_of(self.url),
            branch: text_of(self.branch),
            tag: text_of(self.tag),
            refetch: text_of(self.refetch),
        }
    }
}

/// No option at all.
pub open spec fn no_options() -> RawRepoView {
    RawRepoView { url: None, branch: None, tag: None, refetch: None }
}

impl Default for RawRepo {
    /// No option at all.
    fn default() -> (res: Self)
        ensures
            res@ == no_options(),
    {
        RawRepo { url: None, branch: None, tag: None, refetch: None }
    }
}

impl Clone for RawRepo {
    fn clone(&self) -> (res: Self)
        ensures
            res == *self,
    {
        RawRepo {
            url: copy_text(&self.url),
            branch: copy_text(&self.branch),
            tag: copy_text(&self.tag),
            refetch: copy_text(&self.refetch),
        }
    }
}

/// What is wrong with the options of a volume.
#[derive(Debug)]
pub enum RepoError {
    /// There is no URL.
    MissingUrl,
    /// The URL, given here, is neither an `http` nor an `https` one.
    UnsupportedUrl(String),
    /// Both a branch and a tag are given.
    BranchAndTag,
}

/// A `RepoError` with its text.
pub enum RepoErrorView {
    MissingUrl,
    UnsupportedUrl(Seq<char>),
    BranchAndTag,
}

impl View for RepoError {
    type V = RepoErrorView;

    open spec fn view(&self) -> RepoErrorView {
        match self {
            RepoError::MissingUrl => RepoErrorView::MissingUrl,
            RepoError::UnsupportedUrl(url) => RepoErrorView::UnsupportedUrl(url@),
            RepoError::BranchAndTag => RepoErrorView::BranchAndTag,
        }
    }
}

impl RepoErrorView {
    /// The error in words.
    pub open spec fn text(self) -> Seq<char> {
        match self {
            RepoErrorView::MissingUrl => "The url is required"@,
            RepoErrorView::UnsupportedUrl(url) => "The url "@ + url + " is not supported"@,
            RepoErrorView::BranchAndTag => "The branch and the tag are mutually exclusive"@,
        }
    }
}

impl RepoError {
    /// The error in words.
    pub fn message(&self) -> (res: String)
        ensures
            res@ == self@.text(),
    {
        match self {
            RepoError::MissingUrl => "The url is required".to_owned(),
            RepoError::UnsupportedUrl(url) => "The url ".to_owned().concat(url.as_str()).concat(
                " is not supported",
            ),
            RepoError::BranchAndTag => "The branch and the tag are mutually exclusive".to_owned(),
        }
    }
}

/// The checked options of a volume.
#[derive(Debug)]
pub struct Repo {
    /// Where the repository is cloned from.
    pub url: String,
    /// The branch to check out.
    pub branch: Option<String>,
    /// The tag to check out.
    pub tag: Option<String>,
    /// Whether each mount of a cloned volume fetches.
    pub refetch: bool,
}

/// A `Repo` with its text.
pub struct RepoView {
    pub url: Seq<char>,
    pub branch: Option<Seq<char>>,
    pub tag: Option<Seq<char>>,
    pub refetch: bool,
}

/// A URL that can be cloned from.
pub open spec fn supported_url(url: Seq<char>) -> bool {
    begins_with(url, "http://"@) || begins_with(url, "https://"@)
}

impl RepoView {
    /// What holds of the options of every volume.
    pub open spec fn valid(self) -> bool {
        &&& supported_url(self.url)
        &&& self.branch is None || self.tag is None
    }
}

/// The checked form of `raw`, or what is wrong with it.
pub open spec fn checked(raw: RawRepoView) -> Result<RepoView, RepoErrorView> {
    match raw.url {
        None => Err(RepoErrorView::MissingUrl),
        Some(url) => if !supported_url(url) {
            Err(RepoErrorView::UnsupportedUrl(url))
        } else if raw.branch is Some && raw.tag is Some {
            Err(RepoErrorView::BranchAndTag)
        } else {
            Ok(
                RepoView {
                    url,
                    branch: raw.branch,
                    tag: raw.tag,
                    refetch: raw.refetch == Some("true"@),
                },
            )
        },
    }
}

impl View for Repo {
    type V = RepoView;

    open spec fn view(&self) -> RepoView {
        RepoView {
            url: self.url@,
            branch: text_of(self.branch),
            tag: text_of(self.tag),
            refetch: self.refetch,
        }
    }
}

impl Clone for Repo {
    fn clone(&self) -> (res: Self)
        ensures
            res == *self,
    {
        Repo {
            url: self.url.clone(),
            branch: copy_text(&self.branch),
            tag: copy_text(&self.tag),
            refetch: self.refetch,
        }
    }
}

/// Whether a repository can be cloned from `url`.
pub fn is_supported_url(url: &str) -> (res: bool)
    ensures
        res == supported_url(url@),
{
    has_prefix(url, "http://") || has_prefix(url, "https://")
}

impl Repo {
    /// Checks the options of a volume.
    pub fn check(raw: RawRepo) -> (res: Result<Repo, RepoError>)
        ensures
            match res {
                Ok(repo) => checked(raw@) == Ok::<RepoView, RepoErrorView>(repo@),
                Err(error) => checked(raw@) == Err::<RepoView, RepoErrorView>(error@),
            },
    {
        let Some(url) = raw.url else {
            return Err(RepoError::MissingUrl);
        };
        if !is_supported_url(url.as_str()) {
            return Err(RepoError::UnsupportedUrl(url));
        }
        if raw.branch.is_some() && raw.tag.is_some() {
            return Err(RepoError::BranchAndTag);
        }
        let refetch = match raw.refetch {
            Some(refetch) => refetch == "true".to_owned(),
            None => false,
        };
        Ok(Repo { url, branch: raw.branch, tag: raw.tag, refetch })
    }
}

} // verus!
