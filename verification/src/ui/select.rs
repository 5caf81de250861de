use crate::traits::has_id::HasId;
use crate::traits::render_line::RenderLine;
use crate::ui::event::{Event, Input, State};
use crate::ui::style::{green, is_green};
use crate::ui::view::{
    distinct_by_id, has_id_in, is_first_with_id, without_id, SelectView,
};
use vstd::prelude::*;

verus! {

/// A list of items of which any number can be marked.
pub struct Select<T: HasId + RenderLine> {
    prompt: String,
    items: Vec<T>,
    arrow_pos: usize,
    marked: Vec<T>,
}

impl<T: HasId + RenderLine> View for Select<T> {
    type V = SelectView<T>;

    closed spec fn view(&self) -> SelectView<T> {
        SelectView {
            prompt: self.prompt@,
            items: self.items@,
            arrow_pos: self.arrow_pos as nat,
            marked: self.marked@,
        }
    }
}

/// Whether some record of `records` has the identifier `id`.
fn holds_id<T: HasId>(records: &Vec<T>, id: i32) -> (found: bool)
    ensures
        found == has_id_in(records@, id),
{
    let mut i: usize = 0;
    while i < records.len()
        invariant
            i <= records.len(),
            forall|j: int| 0 <= j < i ==> (#[trigger] records@[j]).id() != id,
        decreases records.len() - i,
    {
        if records[i].get_id() == id {
            return true;
        }
        i += 1;
    }
    false
}

impl<T: HasId + RenderLine> Select<T> {
    /// An empty list: no prompt, no items, the cursor on the first row, nothing marked.
    pub fn new() -> (select: Select<T>)
        ensures
            select@ == (SelectView::<T> {
                prompt: Seq::empty(),
                items: Seq::empty(),
                arrow_pos: 0,
                marked: Seq::empty(),
            }),
    {
        Select { prompt: String::new(), items: Vec::new(), arrow_pos: 0, marked: Vec::new() }
    }

    /// Sets the header that is printed above the items.
    pub fn with_prompt(self, prompt: &str) -> (select: Select<T>)
        ensures
            select@ == (SelectView { prompt: prompt@, ..self@ }),
    {
        let mut select = self;
        select.prompt = prompt.to_owned();
        select
    }

    /// Sets the row on which the cursor starts. Any position is taken; one
    /// beyond the last item is held back to the last item when the list is used.
    pub fn default(self, default: usize) -> (select: Select<T>)
        ensures
            select@ == (SelectView { arrow_pos: default as nat, ..self@ }),
    {
        let mut select = self;
        select.arrow_pos = default;
        select
    }

    /// Adds copies of `items` after the items that the list already has.
    pub fn items(self, items: &[T]) -> (select: Select<T>)
        ensures
            select@ == (SelectView { items: self@.items + items@, ..self@ }),
    {
        let mut select = self;
        let ghost before = select.items@;
        select.items.extend_from_slice(items);
        proof {
            assert forall|i: int| before.len() <= i < select.items@.len() implies select.items@[i]
                == items@[i - before.len()] by {
                items@[i - before.len()].lemma_copy_is_same(&select.items@[i]);
            }
            assert(select.items@ =~= before + items@);
        }
        select
    }

    /// Replaces the marked records by `marked`, taken as they are given.
    pub fn set_marked(self, marked: Vec<T>) -> (select: Select<T>)
        ensures
            select@ == (SelectView { marked: marked@, ..self@ }),
    {
        let mut select = self;
        select.marked = marked;
        select
    }

    /// The marked records, each identifier once: where several marked records
    /// share one, the copy is made of the first.
    pub fn get_marked(&self) -> (marked: Vec<T>)
        ensures
            marked@ == distinct_by_id(self@.marked),
    {
        let mut marked: Vec<T> = Vec::new();
        let mut i: usize = 0;
        while i < self.marked.len()
            invariant
                i <= self.marked.len(),
                marked@ == distinct_by_id(self.marked@.take(i as int)),
            decreases self.marked.len() - i,
        {
            proof {
                assert(self.marked@.take(i + 1).drop_last() =~= self.marked@.take(i as int));
            }
            if !holds_id(&marked, self.marked[i].get_id()) {
                let copy = self.marked[i].clone();
                proof {
                    self.marked@[i as int].lemma_copy_is_same(&copy);
                }
                marked.push(copy);
            }
            i += 1;
        }
        proof {
            assert(self.marked@.take(self.marked@.len() as int) =~= self.marked@);
        }
        marked
    }

    /// Whether a record with the identifier `id` is marked.
    pub fn is_marked(&self, id: i32) -> (found: bool)
        ensures
            found == self@.is_marked(id),
    {
        holds_id(&self.marked, id)
    }

    /// Marks the first item with the identifier `id`, whether or not a record
    /// with that identifier is marked already. Without such an item nothing changes.
    pub fn mark(&mut self, id: i32)
        ensures
            final(self)@ == old(self)@.mark(id),
    {
        let mut i: usize = 0;
        while i < self.items.len()
            invariant
                i <= self.items.len(),
                *self == *old(self),
                forall|j: int| 0 <= j < i ==> (#[trigger] self.items@[j]).id() != id,
            decreases self.items.len() - i,
        {
            if self.items[i].get_id() == id {
                let copy = self.items[i].clone();
                proof {
                    self.items@[i as int].lemma_copy_is_same(&copy);
                    assert(is_first_with_id(self.items@, id, i as int));
                }
                self.marked.push(copy);
                return;
            }
            i += 1;
        }
    }

    /// Takes the mark from every record with the identifier `id`.
    pub fn unmark(&mut self, id: i32)
        ensures
            final(self)@ == old(self)@.unmark(id),
    {
        let mut all: Vec<T> = Vec::new();
        core::mem::swap(&mut self.marked, &mut all);
        let ghost before = all@;
        proof {
            reveal(Seq::filter);
            assert(without_id(before.take(0), id) =~= Seq::<T>::empty());
        }
        for record in it: all
            invariant
                self.prompt == old(self).prompt,
                self.items == old(self).items,
                self.arrow_pos == old(self).arrow_pos,
                before == old(self).marked@,
                it.seq() == before,
                self.marked@ == without_id(before.take(it.index() as int), id),
        {
            proof {
                reveal(Seq::filter);
                assert(before.take(it.index() + 1).drop_last() =~= before.take(it.index() as int));
            }
            if record.get_id() != id {
                self.marked.push(record);
            }
        }
        proof {
            assert(before.take(before.len() as int) =~= before);
        }
    }

    /// Flips the mark of `id`: a marked identifier loses its mark, and an
    /// unmarked one is marked where an item has it.
    pub fn toggle_mark(&mut self, id: i32)
        ensures
            final(self)@ == old(self)@.toggle_mark(id),
    {
        if self.is_marked(id) {
            self.unmark(id);
        } else {
            self.mark(id);
        }
    }

    /// The row that the cursor is on.
    pub fn cursor(&self) -> (row: usize)
        ensures
            row == self@.cursor(),
    {
        if self.items.len() == 0 {
            0
        } else if self.arrow_pos < self.items.len() {
            self.arrow_pos
        } else {
            self.items.len() - 1
        }
    }

    /// Takes one input: moves the cursor or flips a mark, and says in which
    /// state the list is then. Only the input that leaves the list ends in
    /// `Terminated`; after any other the list is to be drawn again.
    pub fn handle_input(&mut self, input: Input) -> (state: State)
        ensures
            final(self)@ == old(self)@.step(input),
            state == (if input == Input::Interrupt {
                State::Terminated
            } else {
                State::Rendering
            }),
    {
        match input {
            Input::Up => {
                let row = self.cursor();
                if row > 0 {
                    self.arrow_pos = row - 1;
                }
                State::Rendering
            },
            Input::Down => {
                let row = self.cursor();
                if self.items.len() > 0 && row < self.items.len() - 1 {
                    self.arrow_pos = row + 1;
                }
                State::Rendering
            },
            Input::Toggle => {
                if self.items.len() > 0 {
                    let id = self.items[self.cursor()].get_id();
                    self.toggle_mark(id);
                }
                State::Rendering
            },
            Input::Interrupt => State::Terminated,
            Input::Other => State::Rendering,
        }
    }

    /// Takes one event of the terminal, as `handle_input` takes what the event asks for.
    pub fn handle_event(&mut self, event: &Event) -> (state: State)
        ensures
            final(self)@ == old(self)@.step(event.input()),
            state == (if event.input() == Input::Interrupt {
                State::Terminated
            } else {
                State::Rendering
            }),
    {
        self.handle_input(event.to_input())
    }

    /// The text of row `i`.
    fn row(&self, i: usize) -> (text: String)
        requires
            i < self@.items.len(),
        ensures
            text@ == self@.row(i as int),
    {
        let mut text = "[".to_owned();
        if self.is_marked(self.items[i].get_id()) {
            text.append("x");
        } else {
            text.append(" ");
        }
        text.append("] ");
        let line = self.items[i].render_line();
        text.append(line.as_str());
        text.append("\n");
        text
    }

    /// The text of the row under the cursor, where the list has an item.
    pub fn cursor_row(&self) -> (text: Option<String>)
        ensures
            self@.items.len() == 0 ==> text is None,
            self@.items.len() > 0 ==> text is Some && text->0@ == self@.row(self@.cursor()),
    {
        if self.items.len() == 0 {
            None
        } else {
            Some(self.row(self.cursor()))
        }
    }

    /// The whole text of the list, with `styled` in place of the row under the cursor.
    pub fn render_with(&self, styled: &str) -> (text: String)
        ensures
            text@ == self@.frame(styled@),
    {
        let mut text = self.prompt.clone();
        text.append("\n");
        let cursor = self.cursor();
        let mut i: usize = 0;
        while i < self.items.len()
            invariant
                i <= self.items.len(),
                cursor == self@.cursor(),
                text@ == self@.prompt + "\n"@ + self@.shown_rows(i as int, styled@),
            decreases self.items.len() - i,
        {
            let ghost so_far = text@;
            if i == cursor {
                text.append("> ");
                text.append(styled);
            } else {
                text.append("  ");
                let row = self.row(i);
                text.append(row.as_str());
            }
            proof {
                assert(text@ =~= so_far + self@.shown_row(i as int, styled@));
                assert(text@ =~= self@.prompt + "\n"@ + self@.shown_rows(i + 1, styled@));
            }
            i += 1;
        }
        text
    }

    /// The whole text of the list, with the row under the cursor in green.
    ///
    /// How green is written is the terminal library's choice, so the text is
    /// fixed up to that choice. On a Windows console that takes no escape
    /// sequences the library writes nothing for a coloured text: the row under
    /// the cursor is then missing from the text, and only its arrow is left.
    pub fn render(&self) -> (text: String)
        ensures
            self@.items.len() == 0 ==> text@ == self@.frame(Seq::empty()),
            self@.items.len() > 0 ==> exists|styled: Seq<char>|
                is_green(self@.row(self@.cursor()), styled) && text@ == #[trigger] self@.frame(
                    styled,
                ),
    {
        match self.cursor_row() {
            None => self.render_with(""),
            Some(row) => {
                let styled = green(row);
                self.render_with(styled.as_str())
            },
        }
    }
}

} // verus!
