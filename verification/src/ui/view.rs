use crate::traits::has_id::HasId;
use crate::traits::render_line::RenderLine;
use crate::ui::event::Input;
use vstd::prelude::*;

verus! {

/// Whether some record of `s` has the identifier `id`.
pub open spec fn has_id_in<T: HasId>(s: Seq<T>, id: i32) -> bool {
    exists|i: int| 0 <= i < s.len() && (#[trigger] s[i]).id() == id
}

/// Whether `i` is the place of the first record of `s` with the identifier `id`.
pub open spec fn is_first_with_id<T: HasId>(s: Seq<T>, id: i32, i: int) -> bool {
    &&& 0 <= i < s.len()
    &&& s[i].id() == id
    &&& forall|j: int| 0 <= j < i ==> (#[trigger] s[j]).id() != id
}

/// The place of the first record of `s` with the identifier `id`, where there is one.
pub open spec fn first_with_id<T: HasId>(s: Seq<T>, id: i32) -> int {
    choose|i: int| is_first_with_id(s, id, i)
}

/// The identifiers that occur in `s`.
pub open spec fn id_set<T: HasId>(s: Seq<T>) -> Set<i32> {
    Set::new(|id: i32| has_id_in(s, id))
}

/// The records of `s` without those whose identifier is `id`, in their order.
pub open spec fn without_id<T: HasId>(s: Seq<T>, id: i32) -> Seq<T> {
    s.filter(|x: T| x.id() != id)
}

/// The records of `s` without those whose identifier an earlier record of
/// `s` has: of the records with one identifier the first, in their order.
pub open spec fn distinct_by_id<T: HasId>(s: Seq<T>) -> Seq<T>
    decreases s.len(),
{
    if s.len() == 0 {
        s
    } else {
        let before = distinct_by_id(s.drop_last());
        if has_id_in(before, s.last().id()) {
            before
        } else {
            before.push(s.last())
        }
    }
}

/// What a list holds, as mathematical values.
pub struct SelectView<T> {
    /// The header printed above the items.
    pub prompt: Seq<char>,
    /// The items, in the order in which they are shown.
    pub items: Seq<T>,
    /// The cursor as it was configured; it may lie beyond the last item.
    pub arrow_pos: nat,
    /// The marked items, in the order in which they were marked.
    pub marked: Seq<T>,
}

impl<T: HasId + RenderLine> SelectView<T> {
    /// The row that the cursor is on: the configured position, held back to
    /// the last row where it lies beyond it, and 0 in a list without items.
    pub open spec fn cursor(self) -> int {
        if self.items.len() == 0 {
            0
        } else if self.arrow_pos < self.items.len() {
            self.arrow_pos as int
        } else {
            self.items.len() - 1
        }
    }

    /// Whether a record with the identifier `id` is marked.
    pub open spec fn is_marked(self, id: i32) -> bool {
        has_id_in(self.marked, id)
    }

    /// The identifiers of the marked records.
    pub open spec fn marked_ids(self) -> Set<i32> {
        id_set(self.marked)
    }

    /// The list after the first item with the identifier `id` was added to
    /// the marked ones; unchanged where no item has it.
    pub open spec fn mark(self, id: i32) -> Self {
        if has_id_in(self.items, id) {
            SelectView { marked: self.marked.push(self.items[first_with_id(self.items, id)]), ..self }
        } else {
            self
        }
    }

    /// The list after every record with the identifier `id` left the marked ones.
    pub open spec fn unmark(self, id: i32) -> Self {
        SelectView { marked: without_id(self.marked, id), ..self }
    }

    /// The list after the mark of `id` was flipped.
    pub open spec fn toggle_mark(self, id: i32) -> Self {
        if self.is_marked(id) {
            self.unmark(id)
        } else {
            self.mark(id)
        }
    }

    /// The list after the cursor went one row up; unchanged on the first row.
    pub open spec fn up(self) -> Self {
        if self.cursor() > 0 {
            SelectView { arrow_pos: (self.cursor() - 1) as nat, ..self }
        } else {
            self
        }
    }

    /// The list after the cursor went one row down; unchanged on the last row.
    pub open spec fn down(self) -> Self {
        if self.cursor() + 1 < self.items.len() {
            SelectView { arrow_pos: (self.cursor() + 1) as nat, ..self }
        } else {
            self
        }
    }

    /// The list after the mark of the item under the cursor was flipped;
    /// unchanged where there is no item.
    pub open spec fn toggle(self) -> Self {
        if self.items.len() > 0 {
            self.toggle_mark(self.items[self.cursor()].id())
        } else {
            self
        }
    }

    /// The list after one input.
    pub open spec fn step(self, input: Input) -> Self {
        match input {
            Input::Up => self.up(),
            Input::Down => self.down(),
            Input::Toggle => self.toggle(),
            Input::Interrupt => self,
            Input::Other => self,
        }
    }

    /// The list after the inputs of `inputs`, one after the other.
    pub open spec fn steps(self, inputs: Seq<Input>) -> Self
        decreases inputs.len(),
    {
        if inputs.len() == 0 {
            self
        } else {
            self.steps(inputs.drop_last()).step(inputs.last())
        }
    }

    /// The text of row `i`: the mark of the item in brackets, then its line.
    pub open spec fn row(self, i: int) -> Seq<char> {
        "["@ + (if self.is_marked(self.items[i].id()) {
            "x"@
        } else {
            " "@
        }) + "] "@ + self.items[i].line() + "\n"@
    }

    /// Row `i` as it is shown: behind the arrow and as `styled` where the
    /// cursor is on it, and behind two blanks elsewhere.
    pub open spec fn shown_row(self, i: int, styled: Seq<char>) -> Seq<char> {
        if i == self.cursor() {
            "> "@ + styled
        } else {
            "  "@ + self.row(i)
        }
    }

    /// The first `n` rows as they are shown, one after the other.
    pub open spec fn shown_rows(self, n: int, styled: Seq<char>) -> Seq<char>
        decreases n,
    {
        if n <= 0 {
            Seq::empty()
        } else {
            self.shown_rows(n - 1, styled) + self.shown_row(n - 1, styled)
        }
    }

    /// The whole text of the list, with `styled` in place of the row under
    /// the cursor: the prompt on a line of its own, then every row.
    pub open spec fn frame(self, styled: Seq<char>) -> Seq<char> {
        self.prompt + "\n"@ + self.shown_rows(self.items.len() as int, styled)
    }
}

} // verus!
