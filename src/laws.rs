use vstd::prelude::*;

use crate::repositories::{created, lists_exactly, next_id};
use crate::todo::{patched, TodoView, UpdateTodo};

verus! {

/// What the in-memory store holds after creating an item from each text in turn,
/// starting empty.
pub open spec fn after_creates(texts: Seq<Seq<char>>) -> Map<i32, TodoView>
    decreases texts.len(),
{
    if texts.len() == 0 {
        Map::empty()
    } else {
        let m = after_creates(texts.drop_last());
        m.insert(next_id(m), created(m, texts.last()))
    }
}

/// The item that the `i`-th creation (counting from zero) of a fresh store makes.
pub open spec fn nth_created(texts: Seq<Seq<char>>, i: int) -> TodoView {
    TodoView { id: (i + 1) as i32, text: texts[i], completed: false }
}

/// After creating one item per text in a fresh store, item `i + 1` is the `i`-th
/// creation, and no other id is used.
pub proof fn lemma_after_creates(texts: Seq<Seq<char>>)
    requires
        texts.len() < i32::MAX,
    ensures
        after_creates(texts).dom().finite(),
        after_creates(texts).len() == texts.len(),
        forall|i: int|
            0 <= i < texts.len() ==> #[trigger] after_creates(texts).contains_key((i + 1) as i32)
                && after_creates(texts)[(i + 1) as i32] == nth_created(texts, i),
        forall|k: i32| #[trigger]
            after_creates(texts).contains_key(k) ==> 1 <= k <= texts.len(),
    decreases texts.len(),
{
    if texts.len() > 0 {
        let prev = texts.drop_last();
        lemma_after_creates(prev);
        let m = after_creates(prev);
        let n = texts.len() - 1;
        assert(!m.contains_key((n + 1) as i32));
        assert(next_id(m) == (n + 1) as i32);
        assert(after_creates(texts) == m.insert((n + 1) as i32, created(m, texts[n])));
        assert forall|i: int| 0 <= i < texts.len() implies #[trigger] after_creates(
            texts,
        ).contains_key((i + 1) as i32) && after_creates(texts)[(i + 1) as i32] == nth_created(
            texts,
            i,
        ) by {
            if i < n {
                assert(prev[i] == texts[i]);
                assert(m.contains_key((i + 1) as i32));
            }
        }
    }
}

/// A creation gives the payload's text and no completion, and finding the new id
/// afterwards gives back the same item.
pub proof fn lemma_create_then_find(m: Map<i32, TodoView>, text: Seq<char>)
    ensures
        created(m, text).text == text,
        !created(m, text).completed,
        m.insert(created(m, text).id, created(m, text)).contains_key(created(m, text).id),
        m.insert(created(m, text).id, created(m, text))[created(m, text).id] == created(m, text),
{
}

/// Listing a fresh store after `n` creations gives exactly `n` items, each the result
/// of one of the creations, and each creation's result appears.
pub proof fn lemma_all_after_creates(texts: Seq<Seq<char>>, s: Seq<TodoView>)
    requires
        texts.len() < i32::MAX,
        lists_exactly(s, after_creates(texts)),
    ensures
        s.len() == texts.len(),
        forall|j: int|
            0 <= j < s.len() ==> 1 <= #[trigger] s[j].id <= texts.len() && s[j] == nth_created(
                texts,
                s[j].id - 1,
            ),
        forall|i: int|
            #![trigger texts[i]]
            0 <= i < texts.len() ==> exists|j: int| #![trigger s[j]] 0 <= j < s.len() && s[j] == nth_created(texts, i),
{
    lemma_after_creates(texts);
    let m = after_creates(texts);
    assert forall|j: int| 0 <= j < s.len() implies 1 <= #[trigger] s[j].id <= texts.len() && s[j]
        == nth_created(texts, s[j].id - 1) by {
        assert(m.contains_key(s[j].id));
        let i = s[j].id - 1;
        assert(m.contains_key((i + 1) as i32));
    }
    assert forall|i: int|
        #![trigger texts[i]]
        0 <= i < texts.len() implies exists|j: int| #![trigger s[j]] 0 <= j < s.len() && s[j] == nth_created(texts, i) by {
        assert(m.contains_key((i + 1) as i32));
        let j = choose|j: int| 0 <= j < s.len() && s[j].id == (i + 1) as i32;
        assert(s[j] == nth_created(texts, i));
    }
}

/// An update that gives only a text changes the text and keeps the id and the
/// completion flag.
pub proof fn lemma_update_text_only(current: TodoView, p: UpdateTodo)
    requires
        p.text is Some,
        p.completed is None,
    ensures
        patched(current, p) == (TodoView {
            id: current.id,
            text: p.text->0@,
            completed: current.completed,
        }),
{
}

/// An update that gives only a completion flag changes the flag and keeps the id and
/// the text.
pub proof fn lemma_update_completed_only(current: TodoView, p: UpdateTodo)
    requires
        p.text is None,
        p.completed is Some,
    ensures
        patched(current, p) == (TodoView {
            id: current.id,
            text: current.text,
            completed: p.completed->0,
        }),
{
}

/// Once an item is deleted its id is absent, so a later find gives nothing and a
/// later delete of the same id fails.
pub proof fn lemma_delete_then_absent(m: Map<i32, TodoView>, id: i32)
    ensures
        !m.remove(id).contains_key(id),
{
}

} // verus!
