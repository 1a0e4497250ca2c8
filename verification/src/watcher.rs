//! The repository watcher: it compares what the repository shows now with
//! the commit it last saw and reports the difference once.

use vstd::prelude::*;
use crate::changes::event_view;
use crate::changes::ChangeType;
use crate::changes::Changes;
use crate::changes::ChangesView;

verus! {

#[verifier::external_type_specification]
#[verifier::external_body]
pub struct ExRepository(git2::Repository);

#[verifier::external_type_specification]
#[verifier::external_body]
pub struct ExGitError(git2::Error);

/// A repository query that failed, with the message the repository gave.
#[derive(Debug)]
pub struct RepositoryError {
    message: String,
}

impl RepositoryError {
    /// The message the repository gave.
    pub closed spec fn text(&self) -> Seq<char> {
        self.message@
    }

    /// An error with the given message.
    pub fn new(message: String) -> (error: RepositoryError)
        ensures
            error.text() == message@,
    {
        RepositoryError { message }
    }

    /// The message the repository gave.
    pub fn message(&self) -> (message: &String)
        ensures
            message@ == self.text(),
    {
        &self.message
    }
}

/// Resolves `HEAD` with `git2::Repository::head`, peels it to its commit
/// with `git2::Reference::peel_to_commit` and gives the commit's id in hex.
/// The answer depends on the repository on disk, so nothing is claimed of it.
#[verifier::external_body]
fn head_commit_id(repo: &git2::Repository) -> (head: Result<String, git2::Error>) {
    Ok(repo.head()?.peel_to_commit()?.id().to_string())
}

/// Lists the paths that `git2::Repository::statuses` reports, in the order it
/// reports them, under the three given options. A path that is not UTF-8
/// gives the error of `git2::StatusEntry::path`. The answer depends on the
/// repository on disk, so nothing is claimed of it.
#[verifier::external_body]
fn status_paths(
    repo: &git2::Repository,
    include_untracked: bool,
    include_ignored: bool,
    exclude_submodules: bool,
) -> (paths: Result<Vec<String>, git2::Error>) {
    let mut options = git2::StatusOptions::new();
    options.include_untracked(include_untracked);
    options.include_ignored(include_ignored);
    options.exclude_submodules(exclude_submodules);
    let statuses = repo.statuses(Some(&mut options))?;
    statuses.iter().map(|entry| entry.path().map(|path| path.to_string())).collect()
}

/// The text of `git2::Error::message`.
#[verifier::external_body]
fn error_message(error: &git2::Error) -> (message: String) {
    error.message().to_string()
}

/// Which entries of the working tree a status query reports.
#[derive(Debug, Clone, Copy, PartialEq, Eq, Structural)]
pub struct StatusQuery {
    /// Files that the repository does not track are reported.
    pub include_untracked: bool,
    /// Files that the repository ignores are reported.
    pub include_ignored: bool,
    /// Submodules are left out.
    pub exclude_submodules: bool,
}

/// The status query of every poll: untracked files included, ignored files
/// excluded, submodules included.
pub fn status_query() -> (query: StatusQuery)
    ensures
        query == (StatusQuery {
            include_untracked: true,
            include_ignored: false,
            exclude_submodules: false,
        }),
{
    StatusQuery { include_untracked: true, include_ignored: false, exclude_submodules: false }
}

/// What one poll reports: nothing where the tree is clean and `HEAD` stands
/// at the baseline, else the kind of change with the paths and the commit
/// that belong to it.
pub open spec fn classify(baseline: Seq<char>, paths: Seq<Seq<char>>, head: Seq<char>) -> Option<
    ChangesView,
> {
    let dirty = paths.len() > 0;
    let moved = head != baseline;
    if dirty && moved {
        Some(ChangesView { kind: ChangeType::Both, files: paths, commit_id: Some(head) })
    } else if dirty {
        Some(ChangesView { kind: ChangeType::FileChange, files: paths, commit_id: None })
    } else if moved {
        Some(ChangesView { kind: ChangeType::NewCommit, files: Seq::empty(), commit_id: Some(head) })
    } else {
        None
    }
}

/// The baseline after a poll: the observed commit where `HEAD` moved, the
/// old baseline where it did not.
pub open spec fn next_baseline(baseline: Seq<char>, head: Seq<char>) -> Seq<char> {
    if head != baseline {
        head
    } else {
        baseline
    }
}

/// One look at the repository: the changed paths of the working tree, in the
/// order reported, and the commit id of `HEAD`.
pub struct Observation {
    pub paths: Seq<Seq<char>>,
    pub head: Seq<char>,
}

/// The baseline after a run of polls that began at `start`.
pub open spec fn baseline_after(start: Seq<char>, seen: Seq<Observation>) -> Seq<char>
    decreases seen.len(),
{
    if seen.len() == 0 {
        start
    } else {
        next_baseline(baseline_after(start, seen.drop_last()), seen.last().head)
    }
}

/// The four combinations of a dirty tree and a moved `HEAD` give the four
/// outcomes, each event fits its kind, and the baseline moves exactly when
/// `HEAD` has moved, to the commit that was seen.
pub proof fn lemma_classification(baseline: Seq<char>, paths: Seq<Seq<char>>, head: Seq<char>)
    ensures
        paths.len() > 0 && head != baseline ==> classify(baseline, paths, head) == Some(
            ChangesView { kind: ChangeType::Both, files: paths, commit_id: Some(head) },
        ),
        paths.len() > 0 && head == baseline ==> classify(baseline, paths, head) == Some(
            ChangesView { kind: ChangeType::FileChange, files: paths, commit_id: None },
        ),
        paths.len() == 0 && head != baseline ==> classify(baseline, paths, head) == Some(
            ChangesView { kind: ChangeType::NewCommit, files: Seq::empty(), commit_id: Some(head) },
        ),
        paths.len() == 0 && head == baseline ==> classify(baseline, paths, head) is None,
        classify(baseline, paths, head) matches Some(event) ==> event.well_formed(),
        next_baseline(baseline, head) != baseline <==> head != baseline,
        next_baseline(baseline, head) == head,
{
}

/// After any poll the baseline is the commit that the poll saw.
pub proof fn lemma_baseline_is_last_head(start: Seq<char>, seen: Seq<Observation>)
    requires
        seen.len() > 0,
    ensures
        baseline_after(start, seen) == seen.last().head,
{
}

/// In any run of polls, a poll reports nothing exactly when the working tree
/// is clean and `HEAD` stands where the poll before it saw it (for the first
/// poll: where the watcher was created).
pub proof fn lemma_silent_iff_unchanged(start: Seq<char>, seen: Seq<Observation>, i: int)
    requires
        0 <= i < seen.len(),
    ensures
        classify(baseline_after(start, seen.take(i)), seen[i].paths, seen[i].head) is None <==> (
        seen[i].paths.len() == 0 && seen[i].head == (if i == 0 {
            start
        } else {
            seen[i - 1].head
        })),
{
    if i > 0 {
        lemma_baseline_is_last_head(start, seen.take(i));
        assert(seen.take(i).last() == seen[i - 1]);
    }
}

/// A second poll that sees the same clean repository as the first reports
/// nothing, whatever the first one reported.
pub proof fn lemma_second_poll_silent(baseline: Seq<char>, paths: Seq<Seq<char>>, head: Seq<char>)
    requires
        paths.len() == 0,
    ensures
        classify(next_baseline(baseline, head), paths, head) is None,
{
}

/// A second poll that sees the same dirty working tree as the first reports
/// the file change again: uncommitted changes are reported on every poll
/// until they are committed or undone.
pub proof fn lemma_dirty_tree_reported_again(
    baseline: Seq<char>,
    paths: Seq<Seq<char>>,
    head: Seq<char>,
)
    requires
        paths.len() > 0,
    ensures
        classify(next_baseline(baseline, head), paths, head) == Some(
            ChangesView { kind: ChangeType::FileChange, files: paths, commit_id: None },
        ),
{
}

/// Watches one repository. It remembers the commit that `HEAD` stood at when
/// it last looked.
pub struct Watcher {
    repo: git2::Repository,
    latest_commit: String,
}

impl Watcher {
    /// The commit id that the next poll is compared with.
    pub closed spec fn baseline(&self) -> Seq<char> {
        self.latest_commit@
    }

    /// The repository that is watched.
    pub closed spec fn repository(&self) -> git2::Repository {
        self.repo
    }

    /// A watcher of `repo` whose baseline is the given commit id.
    pub fn with_baseline(repo: git2::Repository, baseline: String) -> (watcher: Watcher)
        ensures
            watcher.baseline() == baseline@,
            watcher.repository() == repo,
    {
        Watcher { repo, latest_commit: baseline }
    }

    /// A watcher of `repo` whose baseline is the commit that `HEAD` stands
    /// at now. Fails where `HEAD` cannot be resolved; whether it can, and
    /// which commit it stands at, is for the repository to say.
    pub fn new(repo: git2::Repository) -> (made: Result<Watcher, RepositoryError>)
        ensures
            made matches Ok(watcher) ==> watcher.repository() == repo,
    {
        match head_commit_id(&repo) {
            Ok(head) => Ok(Watcher::with_baseline(repo, head)),
            Err(error) => Err(RepositoryError::new(error_message(&error))),
        }
    }

    /// The commit id that the next poll is compared with.
    pub fn latest_commit(&self) -> (id: &String)
        ensures
            id@ == self.baseline(),
    {
        &self.latest_commit
    }

    /// Classifies one observation of the repository, the changed paths of
    /// the working tree and the commit id of `HEAD`, against the baseline,
    /// and moves the baseline where `HEAD` moved.
    pub fn observe(&mut self, paths: Vec<String>, head: String) -> (event: Option<Changes>)
        ensures
            event_view(event) == classify(old(self).baseline(), paths.deep_view(), head@),
            final(self).baseline() == next_baseline(old(self).baseline(), head@),
            final(self).repository() == old(self).repository(),
    {
        let dirty: bool = paths.len() > 0;
        let moved: bool = head != self.latest_commit;
        if moved {
            self.latest_commit = head.clone();
        }
        if dirty && moved {
            Changes::new(ChangeType::Both, paths, Some(head))
        } else if dirty {
            Changes::new(ChangeType::FileChange, paths, None)
        } else if moved {
            let none: Vec<String> = Vec::new();
            assert(none.deep_view() =~= Seq::<Seq<char>>::empty());
            Changes::new(ChangeType::NewCommit, none, Some(head))
        } else {
            None
        }
    }

    /// Polls the repository once: queries the working-tree status under
    /// `status_query` and the commit of `HEAD`, then classifies what it saw. A
    /// failed query leaves the baseline as it was. The watcher keeps its
    /// repository whatever the poll gives.
    pub fn watch(&mut self) -> (polled: Result<Option<Changes>, RepositoryError>)
        ensures
            final(self).repository() == old(self).repository(),
            match polled {
                Ok(event) => exists|paths: Seq<Seq<char>>, head: Seq<char>|
                    {
                        &&& event_view(event) == #[trigger] classify(
                            old(self).baseline(),
                            paths,
                            head,
                        )
                        &&& final(self).baseline() == next_baseline(old(self).baseline(), head)
                    },
                Err(_) => final(self).baseline() == old(self).baseline(),
            },
    {
        let query = status_query();
        let paths: Vec<String> = match status_paths(
            &self.repo,
            query.include_untracked,
            query.include_ignored,
            query.exclude_submodules,
        ) {
            Ok(paths) => paths,
            Err(error) => {
                return Err(RepositoryError::new(error_message(&error)));
            },
        };
        let head: String = match head_commit_id(&self.repo) {
            Ok(head) => head,
            Err(error) => {
                return Err(RepositoryError::new(error_message(&error)));
            },
        };
        let ghost seen_paths = paths.deep_view();
        let ghost seen_head = head@;
        let event = self.observe(paths, head);
        assert(event_view(event) == classify(old(self).baseline(), seen_paths, seen_head));
        Ok(event)
    }
}

} // verus!
