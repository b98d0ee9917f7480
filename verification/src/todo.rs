//! The todo item record and the functions that read whole lists of them.

use vstd::prelude::*;
use crate::text::{is_prefix_of, starts_with_prefix};

verus! {

/// One todo document.  The identifier is generated once at creation and
/// never changes; `deleted` is a soft-delete flag — deleted items stay in
/// the store but are filtered out of the default live view.
#[derive(Debug)]
pub struct TodoItem {
    pub id: String,
    pub title: String,
    pub done: bool,
    pub deleted: bool,
}

impl Clone for TodoItem {
    fn clone(&self) -> (r: Self)
        ensures
            r == *self,
    {
        TodoItem { id: self.id.clone(), title: self.title.clone(), done: self.done, deleted: self.deleted }
    }
}

/// Length of an identifier in its canonical hyphenated form.
pub open spec fn id_len() -> nat {
    36
}

/// Relies on `uuid::Uuid::new_v4` and its `Display` form: a fresh random
/// version-4 identifier rendered as the 36-character hyphenated string.
/// Nothing is assumed beyond the rendered length; in particular two calls
/// may not be related in any way visible here.
#[verifier::external_body]
fn fresh_todo_id() -> (r: String)
    ensures
        r@.len() == id_len(),
{
    uuid::Uuid::new_v4().to_string()
}

impl TodoItem {
    /// A fresh item: new random identifier, the given title, not done,
    /// not deleted.
    pub fn new(title: String) -> (r: TodoItem)
        ensures
            r.id@.len() == id_len(),
            r.title == title,
            !r.done,
            !r.deleted,
    {
        TodoItem { id: fresh_todo_id(), title, done: false, deleted: false }
    }
}

/// The predicate of the default live query: the item is not soft-deleted.
pub open spec fn live_pred() -> spec_fn(TodoItem) -> bool {
    |t: TodoItem| !t.deleted
}

/// The non-deleted documents, in document order: what the default live
/// query delivers.
pub open spec fn live_of(docs: Seq<TodoItem>) -> Seq<TodoItem> {
    docs.filter(live_pred())
}

/// The items a prefix search keeps: not deleted, and the title starts with
/// the searched text.  An empty search text keeps every non-deleted item.
pub open spec fn find_pred(p: Seq<char>) -> spec_fn(TodoItem) -> bool {
    |t: TodoItem| !t.deleted && is_prefix_of(p, t.title@)
}

/// The result of a prefix search over `tasks`, in the order of `tasks`.
pub open spec fn find_filter(tasks: Seq<TodoItem>, p: Seq<char>) -> Seq<TodoItem> {
    tasks.filter(find_pred(p))
}

/// A property that holds of every element of a sequence still holds of
/// every element after filtering.
pub proof fn lemma_filter_preserves<A>(s: Seq<A>, pred: spec_fn(A) -> bool, prop: spec_fn(A) -> bool)
    requires
        forall|i: int| 0 <= i < s.len() ==> prop(#[trigger] s[i]),
    ensures
        forall|j: int| 0 <= j < s.filter(pred).len() ==> prop(#[trigger] s.filter(pred)[j]),
    decreases s.len(),
{
    reveal(Seq::filter);
    if s.len() > 0 {
        assert(forall|i: int| 0 <= i < s.drop_last().len() ==> prop(#[trigger] s.drop_last()[i]));
        lemma_filter_preserves(s.drop_last(), pred, prop);
        let f = s.filter(pred);
        let g = s.drop_last().filter(pred);
        assert forall|j: int| 0 <= j < f.len() implies prop(f[j]) by {
            if pred(s.last()) {
                assert(f == g.push(s.last()));
                if j < g.len() {
                    assert(f[j] == g[j]);
                } else {
                    assert(f[j] == s.last());
                    assert(prop(s[s.len() - 1]));
                }
            } else {
                assert(f == g);
            }
        }
    }
}

/// Law: a search returns only matching items — every result is not
/// deleted and its title starts with the searched text.
pub proof fn lemma_find_only_matches(tasks: Seq<TodoItem>, p: Seq<char>)
    ensures
        forall|j: int|
            0 <= j < find_filter(tasks, p).len() ==> !(#[trigger] find_filter(tasks, p)[j]).deleted
                && is_prefix_of(p, find_filter(tasks, p)[j].title@),
{
    assert forall|j: int| 0 <= j < find_filter(tasks, p).len() implies !(#[trigger] find_filter(
        tasks,
        p,
    )[j]).deleted && is_prefix_of(p, find_filter(tasks, p)[j].title@) by {
        tasks.lemma_filter_pred(find_pred(p), j);
    }
}

/// Law: a search misses nothing — every non-deleted item whose title
/// starts with the searched text appears among the results.
pub proof fn lemma_find_complete(tasks: Seq<TodoItem>, p: Seq<char>)
    ensures
        forall|i: int|
            0 <= i < tasks.len() && !(#[trigger] tasks[i]).deleted && is_prefix_of(
                p,
                tasks[i].title@,
            ) ==> find_filter(tasks, p).contains(tasks[i]),
{
    assert forall|i: int|
        0 <= i < tasks.len() && !(#[trigger] tasks[i]).deleted && is_prefix_of(
            p,
            tasks[i].title@,
        ) implies find_filter(tasks, p).contains(tasks[i]) by {
        tasks.lemma_filter_contains(find_pred(p), i);
    }
}

/// Law: a search for the empty text returns exactly the non-deleted
/// items, in order — the live view itself.
pub proof fn lemma_find_empty_matches_all(tasks: Seq<TodoItem>)
    ensures
        find_filter(tasks, Seq::<char>::empty()) == live_of(tasks),
    decreases tasks.len(),
{
    reveal(Seq::filter);
    if tasks.len() == 0 {
        assert(find_filter(tasks, Seq::<char>::empty()) =~= live_of(tasks));
    } else {
        lemma_find_empty_matches_all(tasks.drop_last());
        assert(Seq::<char>::empty() =~= tasks.last().title@.subrange(0, 0));
        assert(find_pred(Seq::<char>::empty())(tasks.last()) == live_pred()(tasks.last()));
    }
}

/// Prefix search: the non-deleted items of `tasks` whose title starts with
/// `p`, kept in their original order.
pub fn find_matching(tasks: &Vec<TodoItem>, p: &str) -> (r: Vec<TodoItem>)
    ensures
        r@ == find_filter(tasks@, p@),
{
    let mut r: Vec<TodoItem> = Vec::new();
    let mut i: usize = 0;
    proof {
        assert(tasks@.subrange(0, 0) =~= Seq::<TodoItem>::empty());
        reveal(Seq::filter);
    }
    while i < tasks.len()
        invariant
            i <= tasks@.len(),
            r@ == find_filter(tasks@.subrange(0, i as int), p@),
        decreases tasks@.len() - i,
    {
        let t = &tasks[i];
        if !t.deleted && starts_with_prefix(t.title.as_str(), p) {
            r.push(t.clone());
        }
        proof {
            reveal(Seq::filter);
            assert(tasks@.subrange(0, i + 1).drop_last() =~= tasks@.subrange(0, i as int));
            assert(tasks@.subrange(0, i + 1).last() == tasks@[i as int]);
        }
        i += 1;
    }
    proof {
        assert(tasks@.subrange(0, tasks@.len() as int) =~= tasks@);
    }
    r
}

} // verus!
