use crate::todos::decimal::{decimal, decimal_text, lemma_decimal_has_no_line_feed};
use crate::traits::has_id::HasId;
use crate::traits::render_line::{
    lemma_no_line_feed_in_both, lemma_one_line_has_no_line_feed, one_line, to_one_line, RenderLine,
};
use vstd::prelude::*;

verus! {

/// A todo as it is stored.
#[derive(Debug)]
pub struct Todo {
    pub id: i32,
    pub title: String,
    pub completed: bool,
    /// The time at which the todo was made, as text.
    pub created_at: String,
}

/// What is needed to store a new todo.
#[derive(Debug)]
pub struct TodoCreate {
    pub title: String,
}

/// A change of a stored todo: whether the todo `id` is completed.
#[derive(Clone, Copy, Debug, PartialEq, Eq, Structural)]
pub struct TodoUpdate {
    pub id: i32,
    pub completed: bool,
}

impl Clone for Todo {
    fn clone(&self) -> (copy: Self)
        ensures
            copy == *self,
    {
        Todo {
            id: self.id,
            title: self.title.clone(),
            completed: self.completed,
            created_at: self.created_at.clone(),
        }
    }
}

impl HasId for Todo {
    open spec fn id(&self) -> i32 {
        self.id
    }

    fn get_id(&self) -> (id: i32) {
        self.id
    }

    proof fn lemma_copy_is_same(&self, copy: &Self) {
    }
}

impl RenderLine for Todo {
    /// The identifier, the title and the time of creation. A line feed in
    /// the title or in the time is shown as a blank.
    open spec fn line(&self) -> Seq<char> {
        "ID: "@ + decimal_text(self.id as int) + " "@ + one_line(self.title@) + " - "@ + one_line(
            self.created_at@,
        )
    }

    fn render_line(&self) -> (text: String) {
        let mut text = "ID: ".to_owned();
        let id = decimal(self.id);
        text.append(id.as_str());
        text.append(" ");
        let title = to_one_line(self.title.as_str());
        text.append(title.as_str());
        text.append(" - ");
        let created_at = to_one_line(self.created_at.as_str());
        text.append(created_at.as_str());
        proof {
            lemma_todo_line_has_no_line_feed(*self);
        }
        text
    }

    proof fn lemma_line_has_no_line_feed(&self) {
        lemma_todo_line_has_no_line_feed(*self);
    }
}

/// The line of a todo holds no line feed, whatever its title and time hold.
pub proof fn lemma_todo_line_has_no_line_feed(todo: Todo)
    ensures
        !todo.line().contains('\n'),
{
    let head = "ID: "@;
    let gap = " "@;
    let dash = " - "@;
    reveal_strlit("ID: ");
    reveal_strlit(" ");
    reveal_strlit(" - ");
    if head.contains('\n') {
        let i = choose|i: int| 0 <= i < head.len() && head[i] == '\n';
        assert(head[0] != '\n' && head[1] != '\n' && head[2] != '\n' && head[3] != '\n');
    }
    if gap.contains('\n') {
        let i = choose|i: int| 0 <= i < gap.len() && gap[i] == '\n';
        assert(gap[0] != '\n');
    }
    if dash.contains('\n') {
        let i = choose|i: int| 0 <= i < dash.len() && dash[i] == '\n';
        assert(dash[0] != '\n' && dash[1] != '\n' && dash[2] != '\n');
    }
    let id = decimal_text(todo.id as int);
    let title = one_line(todo.title@);
    let time = one_line(todo.created_at@);
    lemma_decimal_has_no_line_feed(todo.id as int);
    lemma_one_line_has_no_line_feed(todo.title@);
    lemma_one_line_has_no_line_feed(todo.created_at@);
    lemma_no_line_feed_in_both(head, id);
    lemma_no_line_feed_in_both(head + id, gap);
    lemma_no_line_feed_in_both(head + id + gap, title);
    lemma_no_line_feed_in_both(head + id + gap + title, dash);
    lemma_no_line_feed_in_both(head + id + gap + title + dash, time);
}

} // verus!
