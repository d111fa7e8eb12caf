//! The steps of creating, updating and deleting an entry of the default
//! journal, and what the outcome of each step leads to: a missing journal
//! or entry is answered 404, a refused permission is answered by the
//! permission check, and files touched before a failure are put back.
//!
//! Each step function takes the stage a request is at and the outcome of
//! the last action, and gives the next stage and the action to take. The
//! caller performs the action (a database call, a file operation, the
//! answer) and hands its outcome back.

use vstd::prelude::*;

verus! {

/// the outcome of the last action
#[derive(Debug, Clone, Copy, PartialEq, Eq, Structural)]
pub enum EntryEvent {
    /// the default journal of the user was looked up: whether it exists
    Journal(bool),
    /// the permission of the user was checked: whether it was granted
    Permission(bool),
    /// the entry of the date was looked up: whether it has files, when it
    /// exists
    Entry(Option<bool>),
    /// the database work of the step went through
    Written,
    /// the files of the entry were marked for removal: whether all were
    Marked(bool),
    /// the files of the new entry were created: whether all were
    Created(bool),
    /// the transaction was committed: whether that worked
    Committed(bool),
    /// a database call failed
    Failed,
}

/// what to do next
#[derive(Debug, Clone, Copy, PartialEq, Eq, Structural)]
pub enum EntryAction {
    /// check the permission of the user on the journal
    CheckPermission,
    /// look up the entry of the date
    LookUpEntry,
    /// do the database work of the request: insert the entry with its tags
    /// and file records, update the entry and its tags, or delete the tags
    /// and file records of the entry
    Write,
    /// create the files of the new file records
    CreateFiles,
    /// mark the files of the entry for removal
    MarkFiles,
    /// delete the row of the entry
    DeleteRow,
    /// commit the transaction
    Commit,
    /// answer with the status
    Answer(u16),
    /// answer what the permission check answers
    Deny,
    /// answer with an error
    Fail,
    /// remove the files created so far, then answer with an error
    DropCreatedAndFail,
    /// take the marks off the files marked so far, then answer with an
    /// error
    UnmarkAndFail,
    /// remove the marked files, then answer with the status
    DropMarkedAndAnswer(u16),
}

/// where a request to create an entry stands; `files` is whether the new
/// entry comes with files
#[derive(Debug, Clone, Copy, PartialEq, Eq, Structural)]
pub enum CreateStage {
    Journal { files: bool },
    Permission { files: bool },
    Write { files: bool },
    Files,
    Commit { created: bool },
    Done,
}

/// the next stage and action of a request to create an entry
pub open spec fn spec_create_step(stage: CreateStage, event: EntryEvent) -> (CreateStage, EntryAction) {
    match (stage, event) {
        (CreateStage::Journal { files }, EntryEvent::Journal(found)) => if found {
            (CreateStage::Permission { files }, EntryAction::CheckPermission)
        } else {
            (CreateStage::Done, EntryAction::Answer(404))
        },
        (CreateStage::Permission { files }, EntryEvent::Permission(granted)) => if granted {
            (CreateStage::Write { files }, EntryAction::Write)
        } else {
            (CreateStage::Done, EntryAction::Deny)
        },
        (CreateStage::Write { files }, EntryEvent::Written) => if files {
            (CreateStage::Files, EntryAction::CreateFiles)
        } else {
            (CreateStage::Commit { created: false }, EntryAction::Commit)
        },
        (CreateStage::Files, EntryEvent::Created(all)) => if all {
            (CreateStage::Commit { created: true }, EntryAction::Commit)
        } else {
            (CreateStage::Done, EntryAction::DropCreatedAndFail)
        },
        (CreateStage::Commit { created }, EntryEvent::Committed(ok)) => if ok {
            (CreateStage::Done, EntryAction::Answer(201))
        } else if created {
            (CreateStage::Done, EntryAction::DropCreatedAndFail)
        } else {
            (CreateStage::Done, EntryAction::Fail)
        },
        (CreateStage::Commit { created }, _) => if created {
            (CreateStage::Done, EntryAction::DropCreatedAndFail)
        } else {
            (CreateStage::Done, EntryAction::Fail)
        },
        _ => (CreateStage::Done, EntryAction::Fail),
    }
}

/// The next step of creating an entry: a missing journal is answered 404,
/// a refused permission by the check; the entry, its tags and its file
/// records are written, then the files are created, then the transaction
/// is committed and the entry answered 201. A failure once the files are
/// all created removes them; a failure while creating them removes those
/// created so far; an outcome that does not answer the stage fails the
/// request.
pub fn create_entry_step(stage: CreateStage, event: EntryEvent) -> (rtn: (CreateStage, EntryAction))
    ensures
        rtn == spec_create_step(stage, event),
{
    match (stage, event) {
        (CreateStage::Journal { files }, EntryEvent::Journal(found)) => if found {
            (CreateStage::Permission { files }, EntryAction::CheckPermission)
        } else {
            (CreateStage::Done, EntryAction::Answer(404))
        },
        (CreateStage::Permission { files }, EntryEvent::Permission(granted)) => if granted {
            (CreateStage::Write { files }, EntryAction::Write)
        } else {
            (CreateStage::Done, EntryAction::Deny)
        },
        (CreateStage::Write { files }, EntryEvent::Written) => if files {
            (CreateStage::Files, EntryAction::CreateFiles)
        } else {
            (CreateStage::Commit { created: false }, EntryAction::Commit)
        },
        (CreateStage::Files, EntryEvent::Created(all)) => if all {
            (CreateStage::Commit { created: true }, EntryAction::Commit)
        } else {
            (CreateStage::Done, EntryAction::DropCreatedAndFail)
        },
        (CreateStage::Commit { created }, EntryEvent::Committed(ok)) => if ok {
            (CreateStage::Done, EntryAction::Answer(201))
        } else if created {
            (CreateStage::Done, EntryAction::DropCreatedAndFail)
        } else {
            (CreateStage::Done, EntryAction::Fail)
        },
        (CreateStage::Commit { created }, _) => if created {
            (CreateStage::Done, EntryAction::DropCreatedAndFail)
        } else {
            (CreateStage::Done, EntryAction::Fail)
        },
        _ => (CreateStage::Done, EntryAction::Fail),
    }
}

/// where a request to update an entry stands
#[derive(Debug, Clone, Copy, PartialEq, Eq, Structural)]
pub enum UpdateStage {
    Journal,
    Permission,
    Entry,
    Write,
    Commit,
    Done,
}

/// the next stage and action of a request to update an entry
pub open spec fn spec_update_step(stage: UpdateStage, event: EntryEvent) -> (UpdateStage, EntryAction) {
    match (stage, event) {
        (UpdateStage::Journal, EntryEvent::Journal(found)) => if found {
            (UpdateStage::Permission, EntryAction::CheckPermission)
        } else {
            (UpdateStage::Done, EntryAction::Answer(404))
        },
        (UpdateStage::Permission, EntryEvent::Permission(granted)) => if granted {
            (UpdateStage::Entry, EntryAction::LookUpEntry)
        } else {
            (UpdateStage::Done, EntryAction::Deny)
        },
        (UpdateStage::Entry, EntryEvent::Entry(found)) => match found {
            Some(_) => (UpdateStage::Write, EntryAction::Write),
            None => (UpdateStage::Done, EntryAction::Answer(404)),
        },
        (UpdateStage::Write, EntryEvent::Written) => (UpdateStage::Commit, EntryAction::Commit),
        (UpdateStage::Commit, EntryEvent::Committed(true)) => (UpdateStage::Done, EntryAction::Answer(200)),
        _ => (UpdateStage::Done, EntryAction::Fail),
    }
}

/// The next step of updating an entry: a missing journal or entry is
/// answered 404, a refused permission by the check; the entry and its tags
/// are written, the transaction committed and the entry answered 200; any
/// failure, or an outcome that does not answer the stage, fails the
/// request.
pub fn update_entry_step(stage: UpdateStage, event: EntryEvent) -> (rtn: (UpdateStage, EntryAction))
    ensures
        rtn == spec_update_step(stage, event),
{
    match (stage, event) {
        (UpdateStage::Journal, EntryEvent::Journal(found)) => if found {
            (UpdateStage::Permission, EntryAction::CheckPermission)
        } else {
            (UpdateStage::Done, EntryAction::Answer(404))
        },
        (UpdateStage::Permission, EntryEvent::Permission(granted)) => if granted {
            (UpdateStage::Entry, EntryAction::LookUpEntry)
        } else {
            (UpdateStage::Done, EntryAction::Deny)
        },
        (UpdateStage::Entry, EntryEvent::Entry(found)) => match found {
            Some(_) => (UpdateStage::Write, EntryAction::Write),
            None => (UpdateStage::Done, EntryAction::Answer(404)),
        },
        (UpdateStage::Write, EntryEvent::Written) => (UpdateStage::Commit, EntryAction::Commit),
        (UpdateStage::Commit, EntryEvent::Committed(true)) => (UpdateStage::Done, EntryAction::Answer(200)),
        _ => (UpdateStage::Done, EntryAction::Fail),
    }
}

/// where a request to delete an entry stands; `files` is whether the
/// entry has files, `marked` whether they are marked for removal
#[derive(Debug, Clone, Copy, PartialEq, Eq, Structural)]
pub enum DeleteStage {
    Journal,
    Permission,
    Entry,
    Write { files: bool },
    Marking,
    Row { marked: bool },
    Commit { marked: bool },
    Done,
}

/// the answer to a failure once files may be marked: the marks are taken
/// off when there are any
pub open spec fn spec_fail_marked(marked: bool) -> EntryAction {
    if marked {
        EntryAction::UnmarkAndFail
    } else {
        EntryAction::Fail
    }
}

/// the next stage and action of a request to delete an entry
pub open spec fn spec_delete_step(stage: DeleteStage, event: EntryEvent) -> (DeleteStage, EntryAction) {
    match (stage, event) {
        (DeleteStage::Journal, EntryEvent::Journal(found)) => if found {
            (DeleteStage::Permission, EntryAction::CheckPermission)
        } else {
            (DeleteStage::Done, EntryAction::Answer(404))
        },
        (DeleteStage::Permission, EntryEvent::Permission(granted)) => if granted {
            (DeleteStage::Entry, EntryAction::LookUpEntry)
        } else {
            (DeleteStage::Done, EntryAction::Deny)
        },
        (DeleteStage::Entry, EntryEvent::Entry(found)) => match found {
            Some(files) => (DeleteStage::Write { files }, EntryAction::Write),
            None => (DeleteStage::Done, EntryAction::Answer(404)),
        },
        (DeleteStage::Write { files }, EntryEvent::Written) => if files {
            (DeleteStage::Marking, EntryAction::MarkFiles)
        } else {
            (DeleteStage::Row { marked: false }, EntryAction::DeleteRow)
        },
        (DeleteStage::Marking, EntryEvent::Marked(all)) => if all {
            (DeleteStage::Row { marked: true }, EntryAction::DeleteRow)
        } else {
            (DeleteStage::Done, EntryAction::UnmarkAndFail)
        },
        (DeleteStage::Marking, _) => (DeleteStage::Done, EntryAction::UnmarkAndFail),
        (DeleteStage::Row { marked }, EntryEvent::Written) => (DeleteStage::Commit { marked }, EntryAction::Commit),
        (DeleteStage::Row { marked }, _) => (DeleteStage::Done, spec_fail_marked(marked)),
        (DeleteStage::Commit { marked }, EntryEvent::Committed(true)) => if marked {
            (DeleteStage::Done, EntryAction::DropMarkedAndAnswer(200))
        } else {
            (DeleteStage::Done, EntryAction::Answer(200))
        },
        (DeleteStage::Commit { marked }, _) => (DeleteStage::Done, spec_fail_marked(marked)),
        _ => (DeleteStage::Done, EntryAction::Fail),
    }
}

/// the answer to a failure once files may be marked
fn fail_marked(marked: bool) -> (rtn: EntryAction)
    ensures
        rtn == spec_fail_marked(marked),
{
    if marked {
        EntryAction::UnmarkAndFail
    } else {
        EntryAction::Fail
    }
}

/// The next step of deleting an entry: a missing journal or entry is
/// answered 404, a refused permission by the check; the tags and file
/// records of the entry are deleted, its files marked for removal, its row
/// deleted and the transaction committed, and then the marked files are
/// removed and the request answered 200. Once files are marked, any
/// failure takes the marks off again; an outcome that does not answer the
/// stage fails the request.
pub fn delete_entry_step(stage: DeleteStage, event: EntryEvent) -> (rtn: (DeleteStage, EntryAction))
    ensures
        rtn == spec_delete_step(stage, event),
{
    match (stage, event) {
        (DeleteStage::Journal, EntryEvent::Journal(found)) => if found {
            (DeleteStage::Permission, EntryAction::CheckPermission)
        } else {
            (DeleteStage::Done, EntryAction::Answer(404))
        },
        (DeleteStage::Permission, EntryEvent::Permission(granted)) => if granted {
            (DeleteStage::Entry, EntryAction::LookUpEntry)
        } else {
            (DeleteStage::Done, EntryAction::Deny)
        },
        (DeleteStage::Entry, EntryEvent::Entry(found)) => match found {
            Some(files) => (DeleteStage::Write { files }, EntryAction::Write),
            None => (DeleteStage::Done, EntryAction::Answer(404)),
        },
        (DeleteStage::Write { files }, EntryEvent::Written) => if files {
            (DeleteStage::Marking, EntryAction::MarkFiles)
        } else {
            (DeleteStage::Row { marked: false }, EntryAction::DeleteRow)
        },
        (DeleteStage::Marking, EntryEvent::Marked(all)) => if all {
            (DeleteStage::Row { marked: true }, EntryAction::DeleteRow)
        } else {
            (DeleteStage::Done, EntryAction::UnmarkAndFail)
        },
        (DeleteStage::Marking, _) => (DeleteStage::Done, EntryAction::UnmarkAndFail),
        (DeleteStage::Row { marked }, EntryEvent::Written) => (DeleteStage::Commit { marked }, EntryAction::Commit),
        (DeleteStage::Row { marked }, _) => (DeleteStage::Done, fail_marked(marked)),
        (DeleteStage::Commit { marked }, EntryEvent::Committed(true)) => if marked {
            (DeleteStage::Done, EntryAction::DropMarkedAndAnswer(200))
        } else {
            (DeleteStage::Done, EntryAction::Answer(200))
        },
        (DeleteStage::Commit { marked }, _) => (DeleteStage::Done, fail_marked(marked)),
        _ => (DeleteStage::Done, EntryAction::Fail),
    }
}

/// the stage a request to delete an entry reaches from its start through
/// the outcomes, and the actions it took, in order
pub open spec fn spec_delete_run(events: Seq<EntryEvent>) -> (DeleteStage, Seq<EntryAction>)
    decreases events.len(),
{
    if events.len() == 0 {
        (DeleteStage::Journal, Seq::empty())
    } else {
        let (stage, actions) = spec_delete_run(events.drop_last());
        let (next, action) = spec_delete_step(stage, events.last());
        (next, actions.push(action))
    }
}

/// whether a stage of a delete comes after the permission was granted
pub open spec fn spec_delete_permitted(stage: DeleteStage) -> bool {
    !(stage is Journal) && !(stage is Permission)
}

/// Nothing of an entry is deleted or marked without the permission: in
/// every run of a delete, a step that writes, marks files or deletes the
/// row comes after the permission check granted the permission, and files
/// are only ever marked when the run is at a stage reached through it.
pub proof fn lemma_delete_needs_permission(events: Seq<EntryEvent>)
    ensures
        forall|i: int|
            0 <= i < spec_delete_run(events).1.len() && (spec_delete_run(events).1[i] is Write
                || spec_delete_run(events).1[i] is MarkFiles || spec_delete_run(events).1[i] is DeleteRow)
                ==> exists|j: int| 0 <= j < i && #[trigger] events[j] == EntryEvent::Permission(true),
        spec_delete_run(events).1.len() == events.len(),
        !(spec_delete_run(events).0 is Done) && spec_delete_permitted(spec_delete_run(events).0)
            ==> exists|j: int| 0 <= j < events.len() && #[trigger] events[j] == EntryEvent::Permission(true),
    decreases events.len(),
{
    if events.len() > 0 {
        let prev = events.drop_last();
        lemma_delete_needs_permission(prev);
        let (stage, actions) = spec_delete_run(prev);
        let n = events.len() - 1;
        assert forall|j: int| 0 <= j < n implies events[j] == prev[j] by {}
        let (next, action) = spec_delete_step(stage, events.last());
        assert(spec_delete_run(events).1 == actions.push(action));
        assert forall|i: int|
            0 <= i < spec_delete_run(events).1.len() && (spec_delete_run(events).1[i] is Write
                || spec_delete_run(events).1[i] is MarkFiles || spec_delete_run(events).1[i] is DeleteRow)
                implies exists|j: int| 0 <= j < i && #[trigger] events[j] == EntryEvent::Permission(true) by {
            if i < n {
                assert(spec_delete_run(events).1[i] == actions[i]);
                let j = choose|j: int| 0 <= j < i && #[trigger] prev[j] == EntryEvent::Permission(true);
                assert(events[j] == prev[j]);
            } else {
                assert(spec_delete_permitted(stage) && !(stage is Done));
                let j = choose|j: int| 0 <= j < prev.len() && #[trigger] prev[j] == EntryEvent::Permission(true);
                assert(events[j] == prev[j]);
            }
        }
        if !(next is Done) && spec_delete_permitted(next) {
            if stage is Permission {
                assert(events[n] == EntryEvent::Permission(true));
            } else {
                let j = choose|j: int| 0 <= j < prev.len() && #[trigger] prev[j] == EntryEvent::Permission(true);
                assert(events[j] == prev[j]);
            }
        }
    }
}

/// Marked files are never left marked by a failure: at every stage at
/// which files are marked, every outcome either goes on with them marked,
/// takes the marks off and fails, or removes them and answers.
pub proof fn lemma_delete_keeps_no_stray_marks(stage: DeleteStage, event: EntryEvent)
    requires
        stage is Marking || stage == (DeleteStage::Row { marked: true }) || stage == (DeleteStage::Commit {
            marked: true,
        }),
    ensures
        spec_delete_step(stage, event).1 is UnmarkAndFail || spec_delete_step(stage, event).1 is DropMarkedAndAnswer
            || spec_delete_step(stage, event).0 == (DeleteStage::Row { marked: true })
            || spec_delete_step(stage, event).0 == (DeleteStage::Commit { marked: true }),
{
}

/// Created files are never left behind by a failure once they are all
/// created: the commit either answers 201 or removes them.
pub proof fn lemma_create_keeps_no_stray_files(event: EntryEvent)
    ensures
        spec_create_step(CreateStage::Commit { created: true }, event).1 == EntryAction::Answer(201)
            || spec_create_step(CreateStage::Commit { created: true }, event).1 == EntryAction::DropCreatedAndFail,
{
}

/// the stage a request to create an entry reaches from its start through the
/// outcomes, and the actions it took, in order
pub open spec fn spec_create_run(files: bool, events: Seq<EntryEvent>) -> (CreateStage, Seq<EntryAction>)
    decreases events.len(),
{
    if events.len() == 0 {
        (CreateStage::Journal { files }, Seq::empty())
    } else {
        let (stage, actions) = spec_create_run(files, events.drop_last());
        let (next, action) = spec_create_step(stage, events.last());
        (next, actions.push(action))
    }
}

/// whether a stage of a request to create an entry comes after the permission was
/// granted
pub open spec fn spec_create_permitted(stage: CreateStage) -> bool {
    !(stage is Journal) && !(stage is Permission) && !(stage is Done)
}

/// Nothing is written without the permission: in every run of a request
/// to create an entry from its start, the step that writes the entry comes
/// on or after the outcome of the permission check that granted it.
pub proof fn lemma_create_needs_permission(files: bool, events: Seq<EntryEvent>)
    ensures
        spec_create_run(files, events).1.len() == events.len(),
        forall|i: int|
            0 <= i < events.len() && #[trigger] spec_create_run(files, events).1[i] is Write ==> exists|j: int|
                0 <= j <= i && #[trigger] events[j] == EntryEvent::Permission(true),
        spec_create_permitted(spec_create_run(files, events).0) ==> exists|j: int|
            0 <= j < events.len() && #[trigger] events[j] == EntryEvent::Permission(true),
    decreases events.len(),
{
    if events.len() > 0 {
        let prev = events.drop_last();
        lemma_create_needs_permission(files, prev);
        let (stage, actions) = spec_create_run(files, prev);
        let n = events.len() - 1;
        let (next, action) = spec_create_step(stage, events.last());
        assert(spec_create_run(files, events).1 == actions.push(action));
        assert forall|i: int|
            0 <= i < events.len() && #[trigger] spec_create_run(files, events).1[i] is Write implies exists|j: int|
                0 <= j <= i && #[trigger] events[j] == EntryEvent::Permission(true) by {
            if i < n {
                assert(spec_create_run(files, events).1[i] == actions[i]);
                let j = choose|j: int| 0 <= j <= i && #[trigger] prev[j] == EntryEvent::Permission(true);
                assert(events[j] == prev[j]);
            } else if stage is Permission {
                assert(events[n] == EntryEvent::Permission(true));
            } else {
                assert(spec_create_permitted(stage));
                let j = choose|j: int| 0 <= j < prev.len() && #[trigger] prev[j] == EntryEvent::Permission(true);
                assert(events[j] == prev[j]);
            }
        }
        if spec_create_permitted(next) {
            if stage is Permission {
                assert(events[n] == EntryEvent::Permission(true));
            } else {
                let j = choose|j: int| 0 <= j < prev.len() && #[trigger] prev[j] == EntryEvent::Permission(true);
                assert(events[j] == prev[j]);
            }
        }
    }
}

/// the stage a request to update an entry reaches from its start through the
/// outcomes, and the actions it took, in order
pub open spec fn spec_update_run(events: Seq<EntryEvent>) -> (UpdateStage, Seq<EntryAction>)
    decreases events.len(),
{
    if events.len() == 0 {
        (UpdateStage::Journal, Seq::empty())
    } else {
        let (stage, actions) = spec_update_run(events.drop_last());
        let (next, action) = spec_update_step(stage, events.last());
        (next, actions.push(action))
    }
}

/// whether a stage of a request to update an entry comes after the permission was
/// granted
pub open spec fn spec_update_permitted(stage: UpdateStage) -> bool {
    !(stage is Journal) && !(stage is Permission) && !(stage is Done)
}

/// Nothing is written without the permission: in every run of a request
/// to update an entry from its start, the step that writes the entry comes after the
/// permission check granted the permission.
pub proof fn lemma_update_needs_permission(events: Seq<EntryEvent>)
    ensures
        spec_update_run(events).1.len() == events.len(),
        forall|i: int|
            0 <= i < events.len() && #[trigger] spec_update_run(events).1[i] is Write ==> exists|j: int|
                0 <= j < i && #[trigger] events[j] == EntryEvent::Permission(true),
        spec_update_permitted(spec_update_run(events).0) ==> exists|j: int|
            0 <= j < events.len() && #[trigger] events[j] == EntryEvent::Permission(true),
    decreases events.len(),
{
    if events.len() > 0 {
        let prev = events.drop_last();
        lemma_update_needs_permission(prev);
        let (stage, actions) = spec_update_run(prev);
        let n = events.len() - 1;
        let (next, action) = spec_update_step(stage, events.last());
        assert(spec_update_run(events).1 == actions.push(action));
        assert forall|i: int|
            0 <= i < events.len() && #[trigger] spec_update_run(events).1[i] is Write implies exists|j: int|
                0 <= j < i && #[trigger] events[j] == EntryEvent::Permission(true) by {
            if i < n {
                assert(spec_update_run(events).1[i] == actions[i]);
                let j = choose|j: int| 0 <= j < i && #[trigger] prev[j] == EntryEvent::Permission(true);
                assert(events[j] == prev[j]);
            } else if stage is Permission {
                assert(events[n] == EntryEvent::Permission(true));
                assert(false);
            } else {
                assert(spec_update_permitted(stage));
                let j = choose|j: int| 0 <= j < prev.len() && #[trigger] prev[j] == EntryEvent::Permission(true);
                assert(events[j] == prev[j]);
            }
        }
        if spec_update_permitted(next) {
            if stage is Permission {
                assert(events[n] == EntryEvent::Permission(true));
            } else {
                let j = choose|j: int| 0 <= j < prev.len() && #[trigger] prev[j] == EntryEvent::Permission(true);
                assert(events[j] == prev[j]);
            }
        }
    }
}

} // verus!
