use crate::traits::has_id::HasId;
use crate::traits::render_line::{lemma_no_line_feed_in_both, RenderLine};
use crate::ui::event::Input;
use crate::ui::view::{
    distinct_by_id, first_with_id, has_id_in, id_set, is_first_with_id, without_id, SelectView,
};
use vstd::prelude::*;

verus! {

/// Whether no two records of `s` share an identifier.
pub open spec fn ids_are_distinct<T: HasId>(s: Seq<T>) -> bool {
    forall|i: int, j: int| 0 <= i < j < s.len() ==> (#[trigger] s[i]).id() != (#[trigger] s[j]).id()
}

/// A record added at the end adds its identifier, and no other.
pub proof fn lemma_ids_of_push<T: HasId>(s: Seq<T>, x: T)
    ensures
        id_set(s.push(x)) == id_set(s).insert(x.id()),
{
    let t = s.push(x);
    assert forall|id: i32| id_set(t).contains(id) <==> id_set(s).insert(x.id()).contains(id) by {
        if has_id_in(t, id) {
            let i = choose|i: int| 0 <= i < t.len() && (#[trigger] t[i]).id() == id;
            if i < s.len() {
                assert(s[i].id() == id);
            }
        }
        if has_id_in(s, id) {
            let i = choose|i: int| 0 <= i < s.len() && (#[trigger] s[i]).id() == id;
            assert(t[i].id() == id);
        }
        if id == x.id() {
            assert(t[s.len() as int].id() == id);
        }
    }
    assert(id_set(t) =~= id_set(s).insert(x.id()));
}

/// Taking the records with one identifier away takes that identifier away,
/// and no other.
pub proof fn lemma_ids_without<T: HasId>(s: Seq<T>, id: i32)
    ensures
        id_set(without_id(s, id)) == id_set(s).remove(id),
        !has_id_in(s, id) ==> without_id(s, id) == s,
    decreases s.len(),
{
    reveal(Seq::filter);
    if s.len() == 0 {
        assert(id_set(without_id(s, id)) =~= id_set(s).remove(id));
    } else {
        let front = s.drop_last();
        lemma_ids_without(front, id);
        assert(s =~= front.push(s.last()));
        lemma_ids_of_push(front, s.last());
        if s.last().id() != id {
            assert(without_id(s, id) == without_id(front, id).push(s.last()));
            lemma_ids_of_push(without_id(front, id), s.last());
        }
        assert(id_set(without_id(s, id)) =~= id_set(s).remove(id));
        if !has_id_in(s, id) {
            assert(s[s.len() - 1].id() != id);
            assert forall|i: int| 0 <= i < front.len() implies (#[trigger] front[i]).id() != id by {
                assert(s[i].id() != id);
            }
            assert(without_id(s, id) =~= s);
        }
    }
}

/// The cursor moves by one row at most and stops at both ends: up from the
/// first row and down from the last leave it where it is. The other inputs
/// do not move it, and no input changes the prompt or the items.
pub proof fn lemma_cursor_moves_one_row<T: HasId + RenderLine>(v: SelectView<T>, input: Input)
    ensures
        v.step(input).prompt == v.prompt,
        v.step(input).items == v.items,
        v.step(input).cursor() == (match input {
            Input::Up => if v.cursor() > 0 {
                v.cursor() - 1
            } else {
                0
            },
            Input::Down => if v.cursor() + 1 < v.items.len() {
                v.cursor() + 1
            } else {
                v.cursor()
            },
            _ => v.cursor(),
        }),
        input == Input::Up || input == Input::Down ==> v.step(input).marked == v.marked,
        v.items.len() == 0 ==> v.step(input) == v,
{
}

/// Whatever the inputs, the cursor stays on a row of the list: it is never
/// below the first row nor beyond the last. The prompt and the items stay as
/// they are, and a list without items does not change at all.
pub proof fn lemma_cursor_stays_in_range<T: HasId + RenderLine>(
    v: SelectView<T>,
    inputs: Seq<Input>,
)
    ensures
        v.steps(inputs).prompt == v.prompt,
        v.steps(inputs).items == v.items,
        0 <= v.steps(inputs).cursor(),
        v.items.len() > 0 ==> v.steps(inputs).cursor() < v.items.len(),
        v.items.len() == 0 ==> v.steps(inputs) == v,
    decreases inputs.len(),
{
    if inputs.len() > 0 {
        lemma_cursor_stays_in_range(v, inputs.drop_last());
        lemma_cursor_moves_one_row(v.steps(inputs.drop_last()), inputs.last());
    }
}

/// Moving the cursor marks nothing: after inputs that are all `Up` or `Down`
/// the marked records are the same.
pub proof fn lemma_moves_keep_marks<T: HasId + RenderLine>(v: SelectView<T>, inputs: Seq<Input>)
    requires
        forall|i: int|
            0 <= i < inputs.len() ==> #[trigger] inputs[i] == Input::Up || inputs[i] == Input::Down,
    ensures
        v.steps(inputs).marked == v.marked,
    decreases inputs.len(),
{
    if inputs.len() > 0 {
        lemma_moves_keep_marks(v, inputs.drop_last());
        lemma_cursor_moves_one_row(v.steps(inputs.drop_last()), inputs.last());
    }
}

/// Flipping the mark of an item's identifier twice gives the marked
/// identifiers back as they were. Where the identifier was not marked, the
/// marked records themselves are as they were.
pub proof fn lemma_toggle_twice<T: HasId + RenderLine>(v: SelectView<T>, id: i32)
    requires
        has_id_in(v.items, id),
    ensures
        v.toggle_mark(id).is_marked(id) == !v.is_marked(id),
        v.toggle_mark(id).toggle_mark(id).marked_ids() == v.marked_ids(),
        v.toggle_mark(id).toggle_mark(id).prompt == v.prompt,
        v.toggle_mark(id).toggle_mark(id).items == v.items,
        v.toggle_mark(id).toggle_mark(id).arrow_pos == v.arrow_pos,
        !v.is_marked(id) ==> v.toggle_mark(id).toggle_mark(id) == v,
{
    lemma_first_with_id(v.items, id);
    let once = v.toggle_mark(id);
    let item = v.items[first_with_id(v.items, id)];
    assert(item.id() == id);
    if v.is_marked(id) {
        lemma_ids_without(v.marked, id);
        assert(!once.is_marked(id));
        lemma_ids_of_push(once.marked, item);
        assert(once.toggle_mark(id).marked_ids() =~= v.marked_ids());
    } else {
        lemma_ids_of_push(v.marked, item);
        assert(once.marked[v.marked.len() as int].id() == id);
        assert(once.is_marked(id));
        lemma_ids_without(once.marked, id);
        assert(once.toggle_mark(id).marked_ids() =~= v.marked_ids());
        reveal(Seq::filter);
        assert(once.marked.drop_last() =~= v.marked);
        lemma_ids_without(v.marked, id);
        assert(once.toggle_mark(id).marked =~= v.marked);
    }
}

/// Flipping the mark of the item under the cursor twice gives the marked
/// identifiers back as they were, and leaves the cursor where it is.
pub proof fn lemma_toggle_toggle<T: HasId + RenderLine>(v: SelectView<T>)
    ensures
        v.toggle().toggle().marked_ids() == v.marked_ids(),
        v.toggle().toggle().prompt == v.prompt,
        v.toggle().toggle().items == v.items,
        v.toggle().toggle().arrow_pos == v.arrow_pos,
{
    if v.items.len() > 0 {
        let id = v.items[v.cursor()].id();
        assert(has_id_in(v.items, id));
        lemma_toggle_twice(v, id);
    }
}

/// Where a record of `s` has the identifier `id`, `first_with_id` is the
/// place of the first such record.
pub proof fn lemma_first_with_id<T: HasId>(s: Seq<T>, id: i32)
    requires
        has_id_in(s, id),
    ensures
        is_first_with_id(s, id, first_with_id(s, id)),
    decreases s.len(),
{
    let i = choose|i: int| 0 <= i < s.len() && (#[trigger] s[i]).id() == id;
    lemma_least_with_id(s, id, i);
}

/// Below any record with the identifier `id` there is a first one.
proof fn lemma_least_with_id<T: HasId>(s: Seq<T>, id: i32, i: int)
    requires
        0 <= i < s.len(),
        s[i].id() == id,
    ensures
        exists|k: int| is_first_with_id(s, id, k),
    decreases i,
{
    if exists|j: int| 0 <= j < i && (#[trigger] s[j]).id() == id {
        let j = choose|j: int| 0 <= j < i && (#[trigger] s[j]).id() == id;
        lemma_least_with_id(s, id, j);
    } else {
        assert(is_first_with_id(s, id, i));
    }
}

/// What is read back of the marked records holds each identifier once, and
/// holds the identifiers that were set, whatever their order. Records that
/// were set with no identifier twice are read back as they were set.
pub proof fn lemma_marked_read_back<T: HasId>(s: Seq<T>)
    ensures
        ids_are_distinct(distinct_by_id(s)),
        id_set(distinct_by_id(s)) == id_set(s),
        ids_are_distinct(s) ==> distinct_by_id(s) == s,
    decreases s.len(),
{
    if s.len() == 0 {
        assert(id_set(distinct_by_id(s)) =~= id_set(s));
    } else {
        let front = s.drop_last();
        let before = distinct_by_id(front);
        lemma_marked_read_back(front);
        assert(s =~= front.push(s.last()));
        lemma_ids_of_push(front, s.last());
        if has_id_in(before, s.last().id()) {
            assert(id_set(before).contains(s.last().id()));
            assert(id_set(distinct_by_id(s)) =~= id_set(s));
        } else {
            lemma_ids_of_push(before, s.last());
            assert forall|i: int, j: int| 0 <= i < j < before.len() + 1 implies (
            #[trigger] before.push(s.last())[i]).id() != (#[trigger] before.push(s.last())[j]).id() by {
                if j == before.len() {
                    assert(before[i].id() != s.last().id());
                } else {
                    assert(before[i].id() != before[j].id());
                }
            }
        }
        if ids_are_distinct(s) {
            assert forall|i: int, j: int| 0 <= i < j < front.len() implies (#[trigger] front[i]).id()
                != (#[trigger] front[j]).id() by {
                assert(s[i].id() != s[j].id());
            }
            assert(before == front);
            if has_id_in(front, s.last().id()) {
                let i = choose|i: int| 0 <= i < front.len() && (#[trigger] front[i]).id() == s.last().id();
                assert(s[i].id() != s[s.len() - 1].id());
            }
            assert(distinct_by_id(s) =~= s);
        }
    }
}

/// The text of a list depends on its prompt, its items, the row of the
/// cursor and the marked identifiers, and on nothing else: two lists that
/// agree on these have the same rows and, for one text of the row under the
/// cursor, the same text.
pub proof fn lemma_frame_depends_on_state<T: HasId + RenderLine>(
    a: SelectView<T>,
    b: SelectView<T>,
    styled: Seq<char>,
)
    requires
        a.prompt == b.prompt,
        a.items == b.items,
        a.cursor() == b.cursor(),
        a.marked_ids() == b.marked_ids(),
    ensures
        forall|i: int| 0 <= i < a.items.len() ==> a.row(i) == b.row(i),
        a.frame(styled) == b.frame(styled),
{
    assert forall|id: i32| a.is_marked(id) == b.is_marked(id) by {
        assert(a.marked_ids().contains(id) == has_id_in(a.marked, id));
        assert(b.marked_ids().contains(id) == has_id_in(b.marked, id));
    }
    lemma_shown_rows_depend_on_state(a, b, styled, a.items.len() as int);
}

proof fn lemma_shown_rows_depend_on_state<T: HasId + RenderLine>(
    a: SelectView<T>,
    b: SelectView<T>,
    styled: Seq<char>,
    n: int,
)
    requires
        a.items == b.items,
        a.cursor() == b.cursor(),
        forall|id: i32| a.is_marked(id) == b.is_marked(id),
        n <= a.items.len(),
    ensures
        a.shown_rows(n, styled) == b.shown_rows(n, styled),
    decreases n,
{
    if n > 0 {
        lemma_shown_rows_depend_on_state(a, b, styled, n - 1);
    }
}

/// Every row is one line: it ends in a line feed and holds no other.
pub proof fn lemma_row_is_one_line<T: HasId + RenderLine>(v: SelectView<T>, i: int)
    requires
        0 <= i < v.items.len(),
    ensures
        v.row(i).len() > 0,
        v.row(i).last() == '\n',
        !v.row(i).drop_last().contains('\n'),
{
    reveal_strlit("[");
    reveal_strlit("x");
    reveal_strlit(" ");
    reveal_strlit("] ");
    reveal_strlit("\n");
    let mark = if v.is_marked(v.items[i].id()) {
        "x"@
    } else {
        " "@
    };
    let line = v.items[i].line();
    let open = "["@ + mark + "] "@;
    v.items[i].lemma_line_has_no_line_feed();
    if open.contains('\n') {
        let k = choose|k: int| 0 <= k < open.len() && open[k] == '\n';
        assert(open[0] != '\n' && open[1] != '\n' && open[2] != '\n' && open[3] != '\n');
    }
    lemma_no_line_feed_in_both(open, line);
    assert(v.row(i).drop_last() =~= open + line);
}

} // verus!
