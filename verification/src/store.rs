//! Commands sent to the document store, and a local model of the store's
//! visible behaviour.
//!
//! The real store is an external service: it persists documents, executes
//! the commands below, and pushes the full result set of the live query
//! (`deleted = false`) back whenever a matching document changes.  The
//! controller only ever emits a [`StoreCommand`]; the process wiring decides
//! how to deliver it.  [`TaskStore`] is a verified in-memory counterpart of
//! the store's document set, exact enough to state and prove what a command
//! round trip does to the live view; it also serves as a stand-in backend.

use vstd::prelude::*;
use crate::text::{lemma_lex_leq_total, lex_leq, str_lex_leq};
use crate::todo::{id_len, live_of, live_pred, TodoItem};

verus! {

/// Documents listed by identifier ascending: each one's identifier comes
/// no later than its neighbour's.
pub open spec fn sorted_by_id(docs: Seq<TodoItem>) -> bool {
    forall|i: int| 0 <= i < docs.len() - 1 ==> lex_leq(#[trigger] docs[i].id@, docs[i + 1].id@)
}

/// Where a fresh identifier goes in an ordered document set: after every
/// document whose identifier comes no later.
pub open spec fn id_insert_pos(docs: Seq<TodoItem>, id: Seq<char>) -> int
    decreases docs.len(),
{
    if docs.len() == 0 {
        0
    } else if lex_leq(docs[0].id@, id) {
        1 + id_insert_pos(docs.drop_first(), id)
    } else {
        0
    }
}

/// The insertion position is always within the document set.
pub proof fn lemma_id_insert_pos_bounds(docs: Seq<TodoItem>, id: Seq<char>)
    ensures
        0 <= id_insert_pos(docs, id) <= docs.len(),
    decreases docs.len(),
{
    if docs.len() > 0 && lex_leq(docs[0].id@, id) {
        lemma_id_insert_pos_bounds(docs.drop_first(), id);
    }
}

/// An ordered document set with a fresh item at its identifier's position.
pub open spec fn id_insert(docs: Seq<TodoItem>, it: TodoItem) -> Seq<TodoItem> {
    docs.insert(id_insert_pos(docs, it.id@), it)
}

/// One mutation or replication-control command for the store.  Each is a
/// single atomic statement from the store's point of view.
#[derive(Debug)]
pub enum StoreCommand {
    /// Insert a fresh item with this title (not done, not deleted).
    Insert { title: String },
    /// Set the `done` flag of every document with this identifier.
    ToggleDone { id: String, done: bool },
    /// Soft-delete every document with this identifier.
    SoftDelete { id: String },
    /// Replace the title of every document with this identifier.
    EditTitle { id: String, title: String },
    /// Start replicating with remote peers.
    StartSync,
    /// Stop replicating with remote peers.
    StopSync,
}

/// Ghost view of a command: the same shape over character sequences.
pub ghost enum CommandView {
    Insert { title: Seq<char> },
    ToggleDone { id: Seq<char>, done: bool },
    SoftDelete { id: Seq<char> },
    EditTitle { id: Seq<char>, title: Seq<char> },
    StartSync,
    StopSync,
}

impl View for StoreCommand {
    type V = CommandView;

    open spec fn view(&self) -> CommandView {
        match self {
            StoreCommand::Insert { title } => CommandView::Insert { title: title@ },
            StoreCommand::ToggleDone { id, done } => CommandView::ToggleDone { id: id@, done: *done },
            StoreCommand::SoftDelete { id } => CommandView::SoftDelete { id: id@ },
            StoreCommand::EditTitle { id, title } => CommandView::EditTitle { id: id@, title: title@ },
            StoreCommand::StartSync => CommandView::StartSync,
            StoreCommand::StopSync => CommandView::StopSync,
        }
    }
}

/// The command option an event handler returns, seen at the ghost level.
pub open spec fn opt_cmd_view(c: Option<StoreCommand>) -> Option<CommandView> {
    match c {
        Some(x) => Some(x@),
        None => None,
    }
}

/// `t` after `ToggleDone { id, done }`: untouched unless its identifier
/// matches.
pub open spec fn with_done(t: TodoItem, id: Seq<char>, done: bool) -> TodoItem {
    if t.id@ == id {
        TodoItem { id: t.id, title: t.title, done, deleted: t.deleted }
    } else {
        t
    }
}

/// `t` after `SoftDelete { id }`.
pub open spec fn with_deleted(t: TodoItem, id: Seq<char>) -> TodoItem {
    if t.id@ == id {
        TodoItem { id: t.id, title: t.title, done: t.done, deleted: true }
    } else {
        t
    }
}

/// `t` after `EditTitle { id, title }`.
pub open spec fn with_title(t: TodoItem, id: Seq<char>, title: String) -> TodoItem {
    if t.id@ == id {
        TodoItem { id: t.id, title, done: t.done, deleted: t.deleted }
    } else {
        t
    }
}

/// A whole document set after `ToggleDone { id, done }`.
pub open spec fn done_set(docs: Seq<TodoItem>, id: Seq<char>, done: bool) -> Seq<TodoItem> {
    docs.map_values(|t: TodoItem| with_done(t, id, done))
}

/// A whole document set after `SoftDelete { id }`.
pub open spec fn deleted_set(docs: Seq<TodoItem>, id: Seq<char>) -> Seq<TodoItem> {
    docs.map_values(|t: TodoItem| with_deleted(t, id))
}

/// A whole document set after `EditTitle { id, title }`.
pub open spec fn title_set(docs: Seq<TodoItem>, id: Seq<char>, title: String) -> Seq<TodoItem> {
    docs.map_values(|t: TodoItem| with_title(t, id, title))
}

/// In-memory model of the store: the full document set (soft-deleted items
/// included) ordered by identifier ascending, and the replication flag.
#[derive(Debug)]
pub struct TaskStore {
    pub docs: Vec<TodoItem>,
    pub sync_active: bool,
}

impl TaskStore {
    /// The store's invariant: documents are kept ordered by identifier.
    pub open spec fn wf(&self) -> bool {
        sorted_by_id(self.docs@)
    }

    /// An empty store with replication off.
    pub fn new() -> (r: TaskStore)
        ensures
            r.docs@ == Seq::<TodoItem>::empty(),
            !r.sync_active,
            r.wf(),
    {
        TaskStore { docs: Vec::new(), sync_active: false }
    }

    /// Whether replication with remote peers is on.
    pub fn is_sync_active(&self) -> (r: bool)
        ensures
            r == self.sync_active,
    {
        self.sync_active
    }

    /// Execute one command.  For `Insert` the created item is returned, so
    /// a caller can learn the generated identifier; every other command
    /// returns nothing.
    pub fn execute(&mut self, cmd: &StoreCommand) -> (r: Option<TodoItem>)
        requires
            old(self).wf(),
        ensures
            final(self).wf(),
            match *cmd {
                StoreCommand::Insert { ref title } => {
                    &&& match r {
                        Some(it) => {
                            &&& final(self).docs@ == id_insert(old(self).docs@, it)
                            &&& it.title == *title
                            &&& !it.done
                            &&& !it.deleted
                            &&& it.id@.len() == id_len()
                        },
                        None => false,
                    }
                    &&& final(self).sync_active == old(self).sync_active
                },
                StoreCommand::ToggleDone { ref id, done } => {
                    &&& r is None
                    &&& final(self).docs@ == done_set(old(self).docs@, id@, done)
                    &&& final(self).sync_active == old(self).sync_active
                },
                StoreCommand::SoftDelete { ref id } => {
                    &&& r is None
                    &&& final(self).docs@ == deleted_set(old(self).docs@, id@)
                    &&& final(self).sync_active == old(self).sync_active
                },
                StoreCommand::EditTitle { ref id, ref title } => {
                    &&& r is None
                    &&& final(self).docs@ == title_set(old(self).docs@, id@, *title)
                    &&& final(self).sync_active == old(self).sync_active
                },
                StoreCommand::StartSync => {
                    &&& r is None
                    &&& final(self).docs@ == old(self).docs@
                    &&& final(self).sync_active
                },
                StoreCommand::StopSync => {
                    &&& r is None
                    &&& final(self).docs@ == old(self).docs@
                    &&& !final(self).sync_active
                },
            },
    {
        match cmd {
            StoreCommand::Insert { title } => {
                let it = TodoItem::new(title.clone());
                let out = it.clone();
                let mut pos: usize = 0;
                proof {
                    assert(self.docs@.skip(0) =~= self.docs@);
                }
                while pos < self.docs.len() && str_lex_leq(
                    self.docs[pos].id.as_str(),
                    it.id.as_str(),
                )
                    invariant
                        pos <= self.docs@.len(),
                        id_insert_pos(self.docs@, it.id@) == pos + id_insert_pos(
                            self.docs@.skip(pos as int),
                            it.id@,
                        ),
                        forall|j: int| 0 <= j < pos ==> lex_leq(#[trigger] self.docs@[j].id@, it.id@),
                    decreases self.docs@.len() - pos,
                {
                    proof {
                        assert(self.docs@.skip(pos as int)[0] == self.docs@[pos as int]);
                        assert(self.docs@.skip(pos as int).drop_first() =~= self.docs@.skip(
                            pos + 1,
                        ));
                    }
                    pos += 1;
                }
                proof {
                    let rest = self.docs@.skip(pos as int);
                    if pos < self.docs@.len() {
                        assert(rest[0] == self.docs@[pos as int]);
                        assert(id_insert_pos(rest, it.id@) == 0);
                    } else {
                        assert(rest.len() == 0);
                        assert(id_insert_pos(rest, it.id@) == 0);
                    }
                    assert(id_insert_pos(self.docs@, it.id@) == pos);
                    // sortedness of the extended set: everything before the
                    // slot comes no later, everything after comes no earlier
                    if pos < self.docs@.len() {
                        lemma_lex_leq_total(self.docs@[pos as int].id@, it.id@);
                    }
                    self.docs@.insert_ensures(pos as int, it);
                }
                let ghost pre_docs = self.docs@;
                self.docs.insert(pos, it);
                proof {
                    let nd = self.docs@;
                    assert forall|i: int| 0 <= i < nd.len() - 1 implies lex_leq(
                        (#[trigger] nd[i]).id@,
                        nd[i + 1].id@,
                    ) by {
                        pre_docs.insert_ensures(pos as int, it);
                        if i + 1 < pos {
                            assert(nd[i] == pre_docs[i]);
                            assert(nd[i + 1] == pre_docs[i + 1]);
                        } else if i + 1 == pos {
                            assert(nd[i] == pre_docs[i]);
                            assert(nd[i + 1] == it);
                        } else if i == pos {
                            assert(nd[i] == it);
                            assert(nd[i + 1] == pre_docs[i]);
                            lemma_lex_leq_total(pre_docs[i].id@, it.id@);
                        } else {
                            assert(nd[i] == pre_docs[i - 1]);
                            assert(nd[i + 1] == pre_docs[i]);
                        }
                    }
                }
                Some(out)
            },
            StoreCommand::ToggleDone { id, done } => {
                let mut i: usize = 0;
                while i < self.docs.len()
                    invariant
                        i <= self.docs@.len(),
                        self.docs@.len() == old(self).docs@.len(),
                        forall|j: int|
                            0 <= j < i ==> self.docs@[j] == with_done(
                                old(self).docs@[j],
                                id@,
                                *done,
                            ),
                        forall|j: int| i <= j < self.docs@.len() ==> self.docs@[j] == old(self).docs@[j],
                        self.sync_active == old(self).sync_active,
                    decreases self.docs@.len() - i,
                {
                    if self.docs[i].id == *id {
                        self.docs[i].done = *done;
                    }
                    i += 1;
                }
                proof {
                    assert(self.docs@ =~= done_set(old(self).docs@, id@, *done));
                    assert forall|i: int| 0 <= i < self.docs@.len() - 1 implies lex_leq(
                        (#[trigger] self.docs@[i]).id@,
                        self.docs@[i + 1].id@,
                    ) by {
                        assert(self.docs@[i].id == old(self).docs@[i].id);
                        assert(self.docs@[i + 1].id == old(self).docs@[i + 1].id);
                    }
                }
                None
            },
            StoreCommand::SoftDelete { id } => {
                let mut i: usize = 0;
                while i < self.docs.len()
                    invariant
                        i <= self.docs@.len(),
                        self.docs@.len() == old(self).docs@.len(),
                        forall|j: int|
                            0 <= j < i ==> self.docs@[j] == with_deleted(old(self).docs@[j], id@),
                        forall|j: int| i <= j < self.docs@.len() ==> self.docs@[j] == old(self).docs@[j],
                        self.sync_active == old(self).sync_active,
                    decreases self.docs@.len() - i,
                {
                    if self.docs[i].id == *id {
                        self.docs[i].deleted = true;
                    }
                    i += 1;
                }
                proof {
                    assert(self.docs@ =~= deleted_set(old(self).docs@, id@));
                    assert forall|i: int| 0 <= i < self.docs@.len() - 1 implies lex_leq(
                        (#[trigger] self.docs@[i]).id@,
                        self.docs@[i + 1].id@,
                    ) by {
                        assert(self.docs@[i].id == old(self).docs@[i].id);
                        assert(self.docs@[i + 1].id == old(self).docs@[i + 1].id);
                    }
                }
                None
            },
            StoreCommand::EditTitle { id, title } => {
                let mut i: usize = 0;
                while i < self.docs.len()
                    invariant
                        i <= self.docs@.len(),
                        self.docs@.len() == old(self).docs@.len(),
                        forall|j: int|
                            0 <= j < i ==> self.docs@[j] == with_title(
                                old(self).docs@[j],
                                id@,
                                *title,
                            ),
                        forall|j: int| i <= j < self.docs@.len() ==> self.docs@[j] == old(self).docs@[j],
                        self.sync_active == old(self).sync_active,
                    decreases self.docs@.len() - i,
                {
                    if self.docs[i].id == *id {
                        self.docs[i].title = title.clone();
                    }
                    i += 1;
                }
                proof {
                    assert(self.docs@ =~= title_set(old(self).docs@, id@, *title));
                    assert forall|i: int| 0 <= i < self.docs@.len() - 1 implies lex_leq(
                        (#[trigger] self.docs@[i]).id@,
                        self.docs@[i + 1].id@,
                    ) by {
                        assert(self.docs@[i].id == old(self).docs@[i].id);
                        assert(self.docs@[i + 1].id == old(self).docs@[i + 1].id);
                    }
                }
                None
            },
            StoreCommand::StartSync => {
                self.sync_active = true;
                None
            },
            StoreCommand::StopSync => {
                self.sync_active = false;
                None
            },
        }
    }

    /// The live view: every non-deleted document, in document order.  This
    /// is what the live query re-delivers after each change.
    pub fn live_view(&self) -> (r: Vec<TodoItem>)
        ensures
            r@ == live_of(self.docs@),
    {
        let mut r: Vec<TodoItem> = Vec::new();
        let mut i: usize = 0;
        proof {
            assert(self.docs@.subrange(0, 0) =~= Seq::<TodoItem>::empty());
            reveal(Seq::filter);
        }
        while i < self.docs.len()
            invariant
                i <= self.docs@.len(),
                r@ == live_of(self.docs@.subrange(0, i as int)),
            decreases self.docs@.len() - i,
        {
            if !self.docs[i].deleted {
                let t = self.docs[i].clone();
                r.push(t);
            }
            proof {
                reveal(Seq::filter);
                assert(self.docs@.subrange(0, i + 1).drop_last() =~= self.docs@.subrange(
                    0,
                    i as int,
                ));
                assert(self.docs@.subrange(0, i + 1).last() == self.docs@[i as int]);
            }
            i += 1;
        }
        proof {
            assert(self.docs@.subrange(0, self.docs@.len() as int) =~= self.docs@);
        }
        r
    }

    /// A direct query with no `deleted = false` filter: the whole document
    /// set, soft-deleted items included.
    pub fn all_docs(&self) -> (r: Vec<TodoItem>)
        ensures
            r@ == self.docs@,
    {
        let mut r: Vec<TodoItem> = Vec::new();
        let mut i: usize = 0;
        while i < self.docs.len()
            invariant
                i <= self.docs@.len(),
                r@ == self.docs@.subrange(0, i as int),
            decreases self.docs@.len() - i,
        {
            let t = self.docs[i].clone();
            r.push(t);
            proof {
                assert(self.docs@.subrange(0, i + 1) =~= self.docs@.subrange(0, i as int).push(
                    self.docs@[i as int],
                ));
            }
            i += 1;
        }
        proof {
            assert(self.docs@.subrange(0, self.docs@.len() as int) =~= self.docs@);
        }
        r
    }
}

/// In an ordered document set, the last identifier dominates all of them.
proof fn lemma_sorted_dominates(docs: Seq<TodoItem>)
    requires
        sorted_by_id(docs),
        docs.len() > 0,
    ensures
        forall|i: int| 0 <= i < docs.len() ==> lex_leq((#[trigger] docs[i]).id@, docs.last().id@),
    decreases docs.len(),
{
    crate::text::lemma_lex_leq_refl(docs.last().id@);
    if docs.len() > 1 {
        let dl = docs.drop_last();
        assert forall|i: int| 0 <= i < dl.len() - 1 implies lex_leq(
            (#[trigger] dl[i]).id@,
            dl[i + 1].id@,
        ) by {
            assert(dl[i] == docs[i]);
            assert(dl[i + 1] == docs[i + 1]);
        }
        lemma_sorted_dominates(dl);
        assert forall|i: int| 0 <= i < docs.len() - 1 implies lex_leq(
            (#[trigger] docs[i]).id@,
            docs.last().id@,
        ) by {
            assert(docs[i] == dl[i]);
            crate::text::lemma_lex_leq_trans(dl[i].id@, dl.last().id@, docs.last().id@);
        }
    }
}

/// Law: filtering keeps the order — in particular, the live view of an
/// ordered document set is itself ordered by identifier ascending.
pub proof fn lemma_live_view_sorted(docs: Seq<TodoItem>)
    requires
        sorted_by_id(docs),
    ensures
        sorted_by_id(live_of(docs)),
    decreases docs.len(),
{
    reveal(Seq::filter);
    if docs.len() > 0 {
        let dl = docs.drop_last();
        assert forall|i: int| 0 <= i < dl.len() - 1 implies lex_leq(
            (#[trigger] dl[i]).id@,
            dl[i + 1].id@,
        ) by {
            assert(dl[i] == docs[i]);
            assert(dl[i + 1] == docs[i + 1]);
        }
        lemma_live_view_sorted(dl);
        if live_pred()(docs.last()) {
            lemma_sorted_dominates(docs);
            crate::todo::lemma_filter_preserves(
                dl,
                live_pred(),
                |t: TodoItem| lex_leq(t.id@, docs.last().id@),
            );
            let f = dl.filter(live_pred());
            assert(live_of(docs) == f.push(docs.last()));
            assert forall|i: int| 0 <= i < live_of(docs).len() - 1 implies lex_leq(
                (#[trigger] live_of(docs)[i]).id@,
                live_of(docs)[i + 1].id@,
            ) by {
                if i + 1 < f.len() {
                    assert(live_of(docs)[i] == f[i]);
                    assert(live_of(docs)[i + 1] == f[i + 1]);
                } else {
                    assert(live_of(docs)[i] == f[i]);
                    assert(live_of(docs)[i + 1] == docs.last());
                }
            }
        } else {
            assert(live_of(docs) == dl.filter(live_pred()));
        }
    } else {
        assert(live_of(docs) =~= Seq::<TodoItem>::empty());
    }
}

/// Law: inserting a fresh (non-deleted) item extends the live view by
/// exactly that item — one new row, everything else untouched.
pub proof fn lemma_insert_visible(docs: Seq<TodoItem>, it: TodoItem)
    requires
        !it.deleted,
    ensures
        exists|p: int|
            0 <= p <= live_of(docs).len() && live_of(id_insert(docs, it)) == live_of(docs).insert(
                p,
                it,
            ),
{
    let pos = id_insert_pos(docs, it.id@);
    lemma_id_insert_pos_bounds(docs, it.id@);
    let pre = docs.subrange(0, pos);
    let suf = docs.subrange(pos, docs.len() as int);
    let lp = live_pred();
    assert(id_insert(docs, it) == pre.push(it) + suf);
    Seq::<TodoItem>::filter_distributes_over_add(pre.push(it), suf, lp);
    reveal(Seq::filter);
    assert(pre.push(it).drop_last() =~= pre);
    assert(pre.push(it).filter(lp) == pre.filter(lp).push(it));
    assert(docs =~= pre + suf);
    Seq::<TodoItem>::filter_distributes_over_add(pre, suf, lp);
    let p = pre.filter(lp).len() as int;
    assert(live_of(docs) == pre.filter(lp) + suf.filter(lp));
    pre.lemma_filter_len(lp);
    assert(live_of(docs).subrange(0, p) =~= pre.filter(lp));
    assert(live_of(docs).subrange(p, live_of(docs).len() as int) =~= suf.filter(lp));
    assert(live_of(id_insert(docs, it)) =~= live_of(docs).insert(p, it));
}

/// Law: toggling `done` twice on the same identifier returns the document
/// set to exactly where it started, provided the flag was consistent for
/// that identifier to begin with.
pub proof fn lemma_toggle_done_twice(docs: Seq<TodoItem>, id: Seq<char>, d: bool)
    requires
        forall|i: int|
            0 <= i < docs.len() ==> ((#[trigger] docs[i]).id@ == id ==> docs[i].done == d),
    ensures
        done_set(done_set(docs, id, !d), id, d) == docs,
{
    let twice = done_set(done_set(docs, id, !d), id, d);
    assert forall|i: int| 0 <= i < docs.len() implies twice[i] == docs[i] by {
        assert(done_set(docs, id, !d)[i] == with_done(docs[i], id, !d));
    }
    assert(twice =~= docs);
}

/// Law: soft-deleting an identifier removes it from the live view, while
/// an unfiltered query still returns every document — same identifiers,
/// titles and flags, only `deleted` newly set on the matching ones.
pub proof fn lemma_soft_delete_hides(docs: Seq<TodoItem>, id: Seq<char>)
    ensures
        forall|j: int|
            0 <= j < live_of(deleted_set(docs, id)).len() ==> (#[trigger] live_of(
                deleted_set(docs, id),
            )[j]).id@ != id,
        deleted_set(docs, id).len() == docs.len(),
        forall|i: int|
            0 <= i < docs.len() ==> {
                let after = #[trigger] deleted_set(docs, id)[i];
                &&& after.id == docs[i].id
                &&& after.title == docs[i].title
                &&& after.done == docs[i].done
                &&& (docs[i].id@ == id ==> after.deleted)
                &&& (docs[i].id@ != id ==> after.deleted == docs[i].deleted)
            },
{
    let ds = deleted_set(docs, id);
    assert forall|i: int| 0 <= i < ds.len() implies (ds[i].id@ == id ==> (#[trigger] ds[i]).deleted) by {
        assert(ds[i] == with_deleted(docs[i], id));
    }
    crate::todo::lemma_filter_preserves(
        ds,
        crate::todo::live_pred(),
        |t: TodoItem| t.id@ == id ==> t.deleted,
    );
    assert forall|j: int| 0 <= j < live_of(ds).len() implies (#[trigger] live_of(ds)[j]).id@ != id by {
        ds.lemma_filter_pred(crate::todo::live_pred(), j);
    }
}

} // verus!
