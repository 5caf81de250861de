use crate::todos::todo_model::{Todo, TodoUpdate};
use vstd::prelude::*;

verus! {

/// The change that brings one todo in line with the marks: it is completed
/// if and only if its identifier is among `marked_ids`.
pub open spec fn update_for(todo: Todo, marked_ids: Seq<i32>) -> TodoUpdate {
    TodoUpdate { id: todo.id, completed: marked_ids.contains(todo.id) }
}

/// Copies of the todos of `todos` that are completed, in their order.
pub fn completed_todos(todos: &[Todo]) -> (completed: Vec<Todo>)
    ensures
        completed@ == todos@.filter(|todo: Todo| todo.completed),
{
    let mut completed: Vec<Todo> = Vec::new();
    let mut i: usize = 0;
    proof {
        reveal(Seq::filter);
        assert(todos@.take(0).filter(|todo: Todo| todo.completed) =~= Seq::<Todo>::empty());
    }
    while i < todos.len()
        invariant
            i <= todos.len(),
            completed@ == todos@.take(i as int).filter(|todo: Todo| todo.completed),
        decreases todos.len() - i,
    {
        proof {
            reveal(Seq::filter);
            assert(todos@.take(i + 1).drop_last() =~= todos@.take(i as int));
        }
        if todos[i].completed {
            completed.push(todos[i].clone());
        }
        i += 1;
    }
    proof {
        assert(todos@.take(todos@.len() as int) =~= todos@);
    }
    completed
}

/// The identifiers of `todos`, in their order.
pub fn ids_of(todos: &[Todo]) -> (ids: Vec<i32>)
    ensures
        ids@ == todos@.map_values(|todo: Todo| todo.id),
{
    let mut ids: Vec<i32> = Vec::new();
    let mut i: usize = 0;
    while i < todos.len()
        invariant
            i <= todos.len(),
            ids@ == todos@.take(i as int).map_values(|todo: Todo| todo.id),
        decreases todos.len() - i,
    {
        ids.push(todos[i].id);
        proof {
            assert(ids@ =~= todos@.take(i + 1).map_values(|todo: Todo| todo.id));
        }
        i += 1;
    }
    proof {
        assert(todos@.take(todos@.len() as int) =~= todos@);
    }
    ids
}

/// One change for each todo of `todos`, in their order: the todo is
/// completed if and only if its identifier is among `marked_ids`.
pub fn completion_updates(todos: &[Todo], marked_ids: &[i32]) -> (updates: Vec<TodoUpdate>)
    ensures
        updates@ == todos@.map_values(|todo: Todo| update_for(todo, marked_ids@)),
{
    let mut updates: Vec<TodoUpdate> = Vec::new();
    let mut i: usize = 0;
    while i < todos.len()
        invariant
            i <= todos.len(),
            updates@ == todos@.take(i as int).map_values(|todo: Todo| update_for(todo, marked_ids@)),
        decreases todos.len() - i,
    {
        let id = todos[i].id;
        let mut completed = false;
        let mut j: usize = 0;
        while j < marked_ids.len()
            invariant
                j <= marked_ids.len(),
                completed == marked_ids@.take(j as int).contains(id),
            decreases marked_ids.len() - j,
        {
            if marked_ids[j] == id {
                completed = true;
            }
            proof {
                let seen = marked_ids@.take(j as int);
                let more = marked_ids@.take(j + 1);
                assert(more =~= seen.push(marked_ids@[j as int]));
                if seen.contains(id) {
                    let k = choose|k: int| 0 <= k < seen.len() && seen[k] == id;
                    assert(more[k] == id);
                }
                if marked_ids@[j as int] == id {
                    assert(more[j as int] == id);
                }
            }
            j += 1;
        }
        proof {
            assert(marked_ids@.take(marked_ids@.len() as int) =~= marked_ids@);
        }
        updates.push(TodoUpdate { id, completed });
        proof {
            assert(updates@ =~= todos@.take(i + 1).map_values(
                |todo: Todo| update_for(todo, marked_ids@),
            ));
        }
        i += 1;
    }
    proof {
        assert(todos@.take(todos@.len() as int) =~= todos@);
    }
    updates
}

} // verus!
