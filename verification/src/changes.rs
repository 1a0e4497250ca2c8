//! The change event that the watcher reports and the wire carries.

use vstd::prelude::*;
use crate::text::clone_texts;
use crate::text::text_eq;

verus! {

/// What kind of change an event reports.
#[derive(Debug, Clone, Copy, PartialEq, Eq, Structural)]
pub enum ChangeType {
    /// `HEAD` moved to another commit; the working tree is clean.
    NewCommit,
    /// The working tree holds uncommitted changes; `HEAD` stands still.
    FileChange,
    /// Both at once.
    Both,
}

impl ChangeType {
    /// The name of the kind on the wire.
    pub open spec fn wire_name(self) -> Seq<char> {
        match self {
            ChangeType::NewCommit => "NewCommit"@,
            ChangeType::FileChange => "FileChange"@,
            ChangeType::Both => "Both"@,
        }
    }

    /// The kind that a wire name stands for.
    pub open spec fn named(name: Seq<char>) -> Option<ChangeType> {
        if name == "NewCommit"@ {
            Some(ChangeType::NewCommit)
        } else if name == "FileChange"@ {
            Some(ChangeType::FileChange)
        } else if name == "Both"@ {
            Some(ChangeType::Both)
        } else {
            None
        }
    }

    /// The kind as a person reads it.
    pub open spec fn label_text(self) -> Seq<char> {
        match self {
            ChangeType::NewCommit => "New Commit"@,
            ChangeType::FileChange => "File Changes"@,
            ChangeType::Both => "File Changes and New Commits"@,
        }
    }

    /// The name of the kind on the wire.
    pub fn name(&self) -> (name: &'static str)
        ensures
            name@ == self.wire_name(),
    {
        match self {
            ChangeType::NewCommit => "NewCommit",
            ChangeType::FileChange => "FileChange",
            ChangeType::Both => "Both",
        }
    }

    /// The kind that a wire name stands for, if it names one.
    pub fn from_name(name: &str) -> (kind: Option<ChangeType>)
        ensures
            kind == ChangeType::named(name@),
    {
        if text_eq(name, "NewCommit") {
            Some(ChangeType::NewCommit)
        } else if text_eq(name, "FileChange") {
            Some(ChangeType::FileChange)
        } else if text_eq(name, "Both") {
            Some(ChangeType::Both)
        } else {
            None
        }
    }

    /// The kind as a person reads it.
    pub fn label(&self) -> (label: &'static str)
        ensures
            label@ == self.label_text(),
    {
        match self {
            ChangeType::NewCommit => "New Commit",
            ChangeType::FileChange => "File Changes",
            ChangeType::Both => "File Changes and New Commits",
        }
    }
}

/// Every kind is found again under its wire name.
pub proof fn lemma_named_wire_name(kind: ChangeType)
    ensures
        ChangeType::named(kind.wire_name()) == Some(kind),
{
    reveal_strlit("NewCommit");
    reveal_strlit("FileChange");
    reveal_strlit("Both");
    assert("NewCommit"@.len() == 9);
    assert("FileChange"@.len() == 10);
    assert("Both"@.len() == 4);
}

/// The mathematical value of an event that may be absent.
pub open spec fn event_view(event: Option<Changes>) -> Option<ChangesView> {
    match event {
        Some(changes) => Some(changes@),
        None => None,
    }
}

/// The mathematical value of a change event.
pub struct ChangesView {
    pub kind: ChangeType,
    pub files: Seq<Seq<char>>,
    pub commit_id: Option<Seq<char>>,
}

impl ChangesView {
    /// The fields fit the kind: changed paths are listed exactly when the
    /// working tree changed, and a commit id is given exactly when `HEAD`
    /// moved.
    pub open spec fn well_formed(self) -> bool {
        &&& self.files.len() > 0 <==> self.kind != ChangeType::NewCommit
        &&& self.commit_id is Some <==> self.kind != ChangeType::FileChange
    }
}

/// One detected change: its kind, the changed paths in the order the
/// repository reported them, and the commit that `HEAD` moved to.
#[derive(Debug)]
pub struct Changes {
    change_type: ChangeType,
    files: Vec<String>,
    commit_id: Option<String>,
}

impl View for Changes {
    type V = ChangesView;

    closed spec fn view(&self) -> ChangesView {
        ChangesView {
            kind: self.change_type,
            files: self.files.deep_view(),
            commit_id: self.commit_id.deep_view(),
        }
    }
}

impl Clone for Changes {
    fn clone(&self) -> (copy: Self)
        ensures
            copy@ == self@,
    {
        proof {
            use_type_invariant(self);
        }
        let files: Vec<String> = clone_texts(&self.files);
        let commit_id: Option<String> = match &self.commit_id {
            Some(id) => Some(id.clone()),
            None => None,
        };
        Changes { change_type: self.change_type, files, commit_id }
    }
}

impl Changes {
    #[verifier::type_invariant]
    spec fn fields_fit_kind(self) -> bool {
        self@.well_formed()
    }

    /// Builds an event from its fields, or `None` where the fields do not
    /// fit the kind.
    pub fn new(change_type: ChangeType, files: Vec<String>, commit_id: Option<String>) -> (made:
        Option<Changes>)
        ensures
            made is Some <==> (ChangesView {
                kind: change_type,
                files: files.deep_view(),
                commit_id: commit_id.deep_view(),
            }).well_formed(),
            made matches Some(event) ==> event@ == (ChangesView {
                kind: change_type,
                files: files.deep_view(),
                commit_id: commit_id.deep_view(),
            }),
    {
        let has_files: bool = files.len() > 0;
        let has_commit: bool = commit_id.is_some();
        let wants_files: bool = match change_type {
            ChangeType::NewCommit => false,
            _ => true,
        };
        let wants_commit: bool = match change_type {
            ChangeType::FileChange => false,
            _ => true,
        };
        if has_files == wants_files && has_commit == wants_commit {
            Some(Changes { change_type, files, commit_id })
        } else {
            None
        }
    }

    /// The kind of the change.
    pub fn change_type(&self) -> (kind: ChangeType)
        ensures
            kind == self@.kind,
            self@.well_formed(),
    {
        proof {
            use_type_invariant(self);
        }
        self.change_type
    }

    /// The changed paths, in the order the repository reported them.
    pub fn files(&self) -> (files: &Vec<String>)
        ensures
            files.deep_view() == self@.files,
            self@.well_formed(),
    {
        proof {
            use_type_invariant(self);
        }
        &self.files
    }

    /// The commit that `HEAD` moved to, if it moved.
    pub fn commit_id(&self) -> (commit_id: &Option<String>)
        ensures
            commit_id.deep_view() == self@.commit_id,
            self@.well_formed(),
    {
        proof {
            use_type_invariant(self);
        }
        &self.commit_id
    }
}

} // verus!
