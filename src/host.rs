use vstd::prelude::*;
use vstd::string::*;

verus! {

/// Where a repository's `origin` remote is hosted.
#[derive(Debug, PartialEq, Eq)]
pub enum RemoteHost {
    GitHub { owner: String, name: String },
    Other,
}

/// Mathematical view of a [`RemoteHost`].
pub enum RemoteHostView {
    GitHub { owner: Seq<char>, name: Seq<char> },
    Other,
}

impl View for RemoteHost {
    type V = RemoteHostView;

    open spec fn view(&self) -> RemoteHostView {
        match self {
            RemoteHost::GitHub { owner, name } => RemoteHostView::GitHub {
                owner: owner@,
                name: name@,
            },
            RemoteHost::Other => RemoteHostView::Other,
        }
    }
}

pub open spec fn has_prefix(s: Seq<char>, p: Seq<char>) -> bool {
    p.len() <= s.len() && s.subrange(0, p.len() as int) == p
}

pub open spec fn has_suffix(s: Seq<char>, p: Seq<char>) -> bool {
    p.len() <= s.len() && s.subrange(s.len() - p.len(), s.len() as int) == p
}

/// `s` without a trailing `.git`, if it has one.
pub open spec fn without_git_ext(s: Seq<char>) -> Seq<char> {
    if has_suffix(s, ".git"@) {
        s.subrange(0, s.len() - 4)
    } else {
        s
    }
}

/// The `owner/name` part of a GitHub remote URL in SSH or HTTPS form, or
/// `None` for a URL of another host.
pub open spec fn github_path(url: Seq<char>) -> Option<Seq<char>> {
    if has_prefix(url, "git@github.com:"@) {
        Some(without_git_ext(url.skip("git@github.com:"@.len() as int)))
    } else if has_prefix(url, "https://github.com/"@) {
        Some(without_git_ext(url.skip("https://github.com/"@.len() as int)))
    } else {
        None
    }
}

/// Index of the first `/` in `s` at or after `from`, or the length of `s`.
pub open spec fn segment_end(s: Seq<char>, from: int) -> int
    decreases s.len() - from,
{
    if from >= s.len() || s[from] == '/' {
        from
    } else {
        segment_end(s, from + 1)
    }
}

/// The host that a remote URL names: GitHub with the first two `/`-separated
/// segments of its path as owner and name, or `Other`. A GitHub URL whose
/// path has no second segment is `Other`.
pub open spec fn remote_host_of(url: Seq<char>) -> RemoteHostView {
    match github_path(url) {
        Some(path) => {
            let i = segment_end(path, 0);
            if i < path.len() {
                RemoteHostView::GitHub {
                    owner: path.subrange(0, i),
                    name: path.subrange(i + 1, segment_end(path, i + 1)),
                }
            } else {
                RemoteHostView::Other
            }
        },
        None => RemoteHostView::Other,
    }
}

/// The GitHub page comparing revision `from` with revision `to`.
pub open spec fn compare_url_of(owner: Seq<char>, name: Seq<char>, from: Seq<char>, to: Seq<char>) -> Seq<
    char,
> {
    "https://github.com/"@ + owner + "/"@ + name + "/compare/"@ + from + ".."@ + to
}

proof fn lemma_segment_end_bounds(s: Seq<char>, from: int)
    requires
        0 <= from <= s.len(),
    ensures
        from <= segment_end(s, from) <= s.len(),
    decreases s.len() - from,
{
    if from < s.len() && s[from] != '/' {
        lemma_segment_end_bounds(s, from + 1);
    }
}

/// Whether `s` starts with `p`.
pub fn starts_with(s: &str, p: &str) -> (r: bool)
    ensures
        r == has_prefix(s@, p@),
{
    let n = s.unicode_len();
    let m = p.unicode_len();
    if m > n {
        return false;
    }
    let mut i: usize = 0;
    while i < m
        invariant
            n == s@.len(),
            m == p@.len(),
            m <= n,
            i <= m,
            forall|j: int| 0 <= j < i ==> s@[j] == p@[j],
        decreases m - i,
    {
        if s.get_char(i) != p.get_char(i) {
            assert(s@.subrange(0, m as int)[i as int] != p@[i as int]);
            return false;
        }
        i = i + 1;
    }
    assert(s@.subrange(0, m as int) =~= p@);
    true
}

/// Whether `s` ends with `p`.
pub fn ends_with(s: &str, p: &str) -> (r: bool)
    ensures
        r == has_suffix(s@, p@),
{
    let n = s.unicode_len();
    let m = p.unicode_len();
    if m > n {
        return false;
    }
    let off = n - m;
    let mut i: usize = 0;
    while i < m
        invariant
            n == s@.len(),
            m == p@.len(),
            off == n - m,
            i <= m,
            forall|j: int| 0 <= j < i ==> s@[off + j] == p@[j],
        decreases m - i,
    {
        if s.get_char(off + i) != p.get_char(i) {
            assert(s@.subrange(off as int, n as int)[i as int] != p@[i as int]);
            return false;
        }
        i = i + 1;
    }
    assert(s@.subrange(off as int, n as int) =~= p@);
    true
}

/// Index of the first `/` in `s` at or after `from`, or the length of `s`.
fn find_segment_end(s: &str, from: usize) -> (r: usize)
    requires
        from <= s@.len(),
    ensures
        r == segment_end(s@, from as int),
{
    let n = s.unicode_len();
    let mut i = from;
    while i < n && s.get_char(i) != '/'
        invariant
            n == s@.len(),
            from <= i <= n,
            segment_end(s@, from as int) == segment_end(s@, i as int),
        decreases n - i,
    {
        i = i + 1;
    }
    i
}

/// The `owner/name` part of a GitHub remote URL, or `None`.
fn github_path_of(url: &str) -> (r: Option<&str>)
    ensures
        match r {
            Some(path) => github_path(url@) == Some(path@),
            None => github_path(url@) is None,
        },
{
    let ssh = "git@github.com:";
    let https = "https://github.com/";
    let n = url.unicode_len();
    let rest = if starts_with(url, ssh) {
        url.substring_char(ssh.unicode_len(), n)
    } else if starts_with(url, https) {
        url.substring_char(https.unicode_len(), n)
    } else {
        return None;
    };
    let ext = ".git";
    proof {
        reveal_strlit(".git");
    }
    if ends_with(rest, ext) {
        let m = rest.unicode_len();
        Some(rest.substring_char(0, m - 4))
    } else {
        Some(rest)
    }
}

impl RemoteHost {
    /// Recognises a GitHub remote URL in SSH (`git@github.com:owner/name`)
    /// or HTTPS (`https://github.com/owner/name`) form, with or without a
    /// `.git` extension.
    pub fn new(url: &str) -> (r: Self)
        ensures
            r@ == remote_host_of(url@),
    {
        match github_path_of(url) {
            Some(path) => {
                let n = path.unicode_len();
                let i = find_segment_end(path, 0);
                if i < n {
                    proof {
                        lemma_segment_end_bounds(path@, i + 1);
                    }
                    let j = find_segment_end(path, i + 1);
                    RemoteHost::GitHub {
                        owner: String::from_str(path.substring_char(0, i)),
                        name: String::from_str(path.substring_char(i + 1, j)),
                    }
                } else {
                    RemoteHost::Other
                }
            },
            None => RemoteHost::Other,
        }
    }

    /// Whether the host offers a page comparing two revisions.
    pub fn has_compare_url(&self) -> (r: bool)
        ensures
            r == (self is GitHub),
    {
        match self {
            RemoteHost::GitHub { .. } => true,
            RemoteHost::Other => false,
        }
    }

    /// The page comparing revision `from` with revision `to`.
    pub fn compare_url(&self, from: &str, to: &str) -> (r: String)
        requires
            self is GitHub,
        ensures
            r@ == compare_url_of(self->owner@, self->name@, from@, to@),
    {
        match self {
            RemoteHost::GitHub { owner, name } => {
                let mut url = String::from_str("https://github.com/");
                url.append(owner.as_str());
                url.append("/");
                url.append(name.as_str());
                url.append("/compare/");
                url.append(from);
                url.append("..");
                url.append(to);
                url
            },
            RemoteHost::Other => String::new(),
        }
    }
}

} // verus!
