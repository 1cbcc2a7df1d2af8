//! The typed records this layer produces: value objects rebuilt on every
//! call from fresh process output.

use vstd::prelude::*;

verus! {

/// The view of a sequence of owned strings as a sequence of character
/// sequences.
pub open spec fn string_seq_view(s: Seq<String>) -> Seq<Seq<char>> {
    s.map_values(|x: String| x@)
}

/// One signature line of a commit: who acted and when.
#[derive(Debug, Clone, PartialEq, Eq)]
pub struct Author {
    pub name: String,
    pub email: String,
    pub timestamp: String,
}

/// The mathematical content of an [`Author`].
#[verifier::ext_equal]
pub struct AuthorView {
    pub name: Seq<char>,
    pub email: Seq<char>,
    pub timestamp: Seq<char>,
}

impl View for Author {
    type V = AuthorView;

    open spec fn view(&self) -> AuthorView {
        AuthorView { name: self.name@, email: self.email@, timestamp: self.timestamp@ }
    }
}

/// One revision of the log: a change together with its current snapshot.
#[derive(Debug, Clone, PartialEq, Eq)]
pub struct Commit {
    pub change_id: String,
    pub commit_id: String,
    pub author: Author,
    pub committer: Author,
    pub description: String,
    pub branches: Vec<String>,
    pub tags: Vec<String>,
    pub is_working_copy: bool,
}

/// The mathematical content of a [`Commit`].
#[verifier::ext_equal]
pub struct CommitView {
    pub change_id: Seq<char>,
    pub commit_id: Seq<char>,
    pub author: AuthorView,
    pub committer: AuthorView,
    pub description: Seq<char>,
    pub branches: Seq<Seq<char>>,
    pub tags: Seq<Seq<char>>,
    pub is_working_copy: bool,
}

impl View for Commit {
    type V = CommitView;

    open spec fn view(&self) -> CommitView {
        CommitView {
            change_id: self.change_id@,
            commit_id: self.commit_id@,
            author: self.author@,
            committer: self.committer@,
            description: self.description@,
            branches: string_seq_view(self.branches@),
            tags: string_seq_view(self.tags@),
            is_working_copy: self.is_working_copy,
        }
    }
}

/// A movable named pointer to a revision, optionally tracking a remote.
#[derive(Debug, Clone, PartialEq, Eq)]
pub struct Bookmark {
    pub name: String,
    pub target: String,
    pub is_tracking: bool,
    pub remote: Option<String>,
}

/// The mathematical content of a [`Bookmark`].
#[verifier::ext_equal]
pub struct BookmarkView {
    pub name: Seq<char>,
    pub target: Seq<char>,
    pub is_tracking: bool,
    pub remote: Option<Seq<char>>,
}

impl View for Bookmark {
    type V = BookmarkView;

    open spec fn view(&self) -> BookmarkView {
        BookmarkView {
            name: self.name@,
            target: self.target@,
            is_tracking: self.is_tracking,
            remote: match self.remote {
                Some(r) => Some(r@),
                None => None,
            },
        }
    }
}

/// How one path changed in the working copy.
#[derive(Debug, Clone, PartialEq, Eq)]
pub enum ChangeStatus {
    Added,
    Modified,
    Deleted,
    Renamed { from: String },
    Copied { from: String },
}

/// One changed path together with how it changed.
#[derive(Debug, Clone, PartialEq, Eq)]
pub struct Change {
    pub path: String,
    pub status: ChangeStatus,
}

/// A repository the caller has opened: where it lives and where its working
/// copy is checked out.
#[derive(Debug, Clone, PartialEq, Eq)]
pub struct Repository {
    pub path: String,
    pub working_copy_path: String,
}

impl Repository {
    /// Builds a repository record from its two locations.
    pub fn new(path: String, working_copy_path: String) -> (r: Self)
        ensures
            r.path == path,
            r.working_copy_path == working_copy_path,
    {
        Self { path, working_copy_path }
    }
}

} // verus!
