use rustdo::todos::todo_model::Todo;
use rustdo::ui::event::{Event, Input, KeyCode, KeyEvent, State, CONTROL, NONE};
use rustdo::ui::select::Select;

fn todo(id: i32, title: &str) -> Todo {
    Todo {
        id,
        title: title.to_string(),
        completed: false,
        created_at: "2024-03-01 09:30:00".to_string(),
    }
}

fn ids(todos: &[Todo]) -> Vec<i32> {
    todos.iter().map(|t| t.id).collect()
}

fn sorted_ids(todos: &[Todo]) -> Vec<i32> {
    let mut v = ids(todos);
    v.sort();
    v
}

fn key(code: KeyCode, modifiers: u8) -> Event {
    Event::Key(KeyEvent { code, modifiers })
}

#[test]
fn new_list_is_empty() {
    let select = Select::<Todo>::new();
    assert_eq!(select.cursor(), 0);
    assert!(select.get_marked().is_empty());
    assert_eq!(select.cursor_row(), None);
    assert_eq!(select.render_with("unused"), "\n");
    assert_eq!(select.render(), "\n");
}

#[test]
fn down_then_toggle_twice_cancels() {
    let items = vec![todo(1, "buy milk"), todo(2, "pay rent")];
    let mut select = Select::<Todo>::new().items(&items).default(0).set_marked(vec![]);
    assert_eq!(select.handle_input(Input::Down), State::Rendering);
    assert_eq!(select.handle_input(Input::Toggle), State::Rendering);
    assert_eq!(ids(&select.get_marked()), vec![2]);
    assert_eq!(select.handle_input(Input::Toggle), State::Rendering);
    assert!(select.get_marked().is_empty());
    assert_eq!(select.cursor(), 1);
}

#[test]
fn up_is_held_at_first_row_and_toggle_adds_to_marks() {
    let items = vec![todo(1, "a"), todo(2, "b"), todo(3, "c")];
    let mut select = Select::<Todo>::new().items(&items).set_marked(vec![todo(2, "b")]);
    select.handle_input(Input::Up);
    assert_eq!(select.cursor(), 0);
    select.handle_input(Input::Down);
    select.handle_input(Input::Down);
    select.handle_input(Input::Toggle);
    assert_eq!(select.cursor(), 2);
    assert_eq!(ids(&select.get_marked()), vec![2, 3]);
}

#[test]
fn empty_list_ignores_every_input() {
    for input in [Input::Up, Input::Down, Input::Toggle, Input::Other] {
        let mut select = Select::<Todo>::new().with_prompt("nothing here");
        let before = select.render_with("");
        assert_eq!(select.handle_input(input), State::Rendering);
        assert_eq!(select.cursor(), 0);
        assert!(select.get_marked().is_empty());
        assert_eq!(select.cursor_row(), None);
        assert_eq!(select.render_with(""), before);
        assert_eq!(before, "nothing here\n");
    }
}

#[test]
fn empty_list_keeps_marks_that_were_set() {
    let mut select = Select::<Todo>::new().default(4).set_marked(vec![todo(9, "z")]);
    for input in [Input::Up, Input::Down, Input::Toggle] {
        select.handle_input(input);
        assert_eq!(select.cursor(), 0);
        assert_eq!(ids(&select.get_marked()), vec![9]);
    }
}

#[test]
fn interrupt_terminates_and_keeps_marks() {
    let items = vec![todo(1, "a"), todo(2, "b"), todo(3, "c")];
    let mut select = Select::<Todo>::new().items(&items).set_marked(vec![todo(3, "c")]);
    select.handle_input(Input::Toggle);
    select.handle_input(Input::Down);
    let before = ids(&select.get_marked());
    assert_eq!(before, vec![3, 1]);
    let state = select.handle_event(&key(KeyCode::Char('c'), CONTROL));
    assert_eq!(state, State::Terminated);
    assert_eq!(ids(&select.get_marked()), before);
    assert_eq!(select.cursor(), 1);
}

#[test]
fn interrupt_before_any_input_terminates() {
    let mut select = Select::<Todo>::new().items(&[todo(1, "a")]);
    assert_eq!(select.handle_input(Input::Interrupt), State::Terminated);
    assert!(select.get_marked().is_empty());
    assert_eq!(select.cursor(), 0);
}

#[test]
fn cursor_stays_in_range_for_any_moves() {
    let items = vec![todo(1, "a"), todo(2, "b"), todo(3, "c")];
    let mut select = Select::<Todo>::new().items(&items);
    let moves = [
        Input::Up, Input::Up, Input::Down, Input::Down, Input::Down, Input::Down, Input::Down,
        Input::Up, Input::Down, Input::Down, Input::Up, Input::Up, Input::Up, Input::Up,
    ];
    let expected = [0, 0, 1, 2, 2, 2, 2, 1, 2, 2, 1, 0, 0, 0];
    for (input, row) in moves.iter().zip(expected.iter()) {
        select.handle_input(*input);
        assert_eq!(select.cursor(), *row);
        assert!(select.get_marked().is_empty());
    }
}

#[test]
fn cursor_beyond_the_items_is_held_at_last_row() {
    let items = vec![todo(1, "a"), todo(2, "b"), todo(3, "c")];
    let select = Select::<Todo>::new().default(10).items(&items);
    assert_eq!(select.cursor(), 2);
    assert_eq!(select.cursor_row(), Some("[ ] ID: 3 c - 2024-03-01 09:30:00\n".to_string()));

    let mut up = Select::<Todo>::new().default(10).items(&items);
    up.handle_input(Input::Up);
    assert_eq!(up.cursor(), 1);

    let mut down = Select::<Todo>::new().default(10).items(&items);
    down.handle_input(Input::Down);
    assert_eq!(down.cursor(), 2);

    let mut toggle = Select::<Todo>::new().default(usize::MAX).items(&items);
    toggle.handle_input(Input::Toggle);
    assert_eq!(ids(&toggle.get_marked()), vec![3]);
}

#[test]
fn default_is_kept_until_items_are_given() {
    let items = vec![todo(1, "a"), todo(2, "b"), todo(3, "c")];
    let select = Select::<Todo>::new().default(1).items(&items);
    assert_eq!(select.cursor(), 1);
    let select = Select::<Todo>::new().default(1);
    assert_eq!(select.cursor(), 0);
}

#[test]
fn items_are_added_after_earlier_items() {
    let select = Select::<Todo>::new()
        .items(&[todo(1, "a")])
        .items(&[])
        .items(&[todo(2, "b"), todo(3, "c")]);
    assert_eq!(
        select.render_with("*"),
        "\n> *  [ ] ID: 2 b - 2024-03-01 09:30:00\n  [ ] ID: 3 c - 2024-03-01 09:30:00\n"
    );
}

#[test]
fn toggle_twice_restores_marked_ids() {
    let items = vec![todo(1, "a"), todo(2, "b"), todo(3, "c")];
    for start in [vec![], vec![todo(1, "a")], vec![todo(3, "c"), todo(1, "a"), todo(2, "b")]] {
        for id in [1, 2, 3] {
            let mut select = Select::<Todo>::new().items(&items).set_marked(start.clone());
            let before = sorted_ids(&select.get_marked());
            let was_marked = select.is_marked(id);
            select.toggle_mark(id);
            assert_eq!(select.is_marked(id), !was_marked);
            select.toggle_mark(id);
            assert_eq!(select.is_marked(id), was_marked);
            assert_eq!(sorted_ids(&select.get_marked()), before);
        }
    }
}

#[test]
fn toggle_of_unmarked_id_twice_restores_the_order() {
    let items = vec![todo(1, "a"), todo(2, "b"), todo(3, "c")];
    let mut select =
        Select::<Todo>::new().items(&items).set_marked(vec![todo(3, "c"), todo(1, "a")]);
    select.toggle_mark(2);
    assert_eq!(ids(&select.get_marked()), vec![3, 1, 2]);
    select.toggle_mark(2);
    assert_eq!(ids(&select.get_marked()), vec![3, 1]);
}

#[test]
fn toggle_of_marked_id_moves_it_to_the_end() {
    let items = vec![todo(1, "a"), todo(2, "b"), todo(3, "c")];
    let mut select =
        Select::<Todo>::new().items(&items).set_marked(vec![todo(3, "c"), todo(1, "a")]);
    select.toggle_mark(3);
    assert_eq!(ids(&select.get_marked()), vec![1]);
    select.toggle_mark(3);
    assert_eq!(ids(&select.get_marked()), vec![1, 3]);
}

#[test]
fn mark_of_unknown_id_changes_nothing() {
    let items = vec![todo(1, "a"), todo(2, "b")];
    let mut select = Select::<Todo>::new().items(&items);
    select.mark(7);
    assert!(select.get_marked().is_empty());
    select.toggle_mark(7);
    assert!(select.get_marked().is_empty());
}

#[test]
fn mark_takes_the_first_item_with_the_id() {
    let items = vec![todo(1, "first"), todo(1, "second")];
    let mut select = Select::<Todo>::new().items(&items);
    select.mark(1);
    let marked = select.get_marked();
    assert_eq!(marked.len(), 1);
    assert_eq!(marked[0].title, "first");
}

#[test]
fn unmark_removes_every_record_with_the_id() {
    let mut select = Select::<Todo>::new()
        .set_marked(vec![todo(1, "a"), todo(2, "b"), todo(1, "c"), todo(3, "d")]);
    select.unmark(1);
    assert_eq!(ids(&select.get_marked()), vec![2, 3]);
    select.unmark(5);
    assert_eq!(ids(&select.get_marked()), vec![2, 3]);
}

#[test]
fn toggle_removes_a_mark_that_no_item_has() {
    let mut select = Select::<Todo>::new().items(&[todo(1, "a")]).set_marked(vec![todo(8, "x")]);
    select.toggle_mark(8);
    assert!(select.get_marked().is_empty());
    select.toggle_mark(8);
    assert!(select.get_marked().is_empty());
}

#[test]
fn get_marked_after_set_marked_has_the_same_ids() {
    let set = vec![todo(5, "e"), todo(2, "b"), todo(9, "i")];
    let select = Select::<Todo>::new().set_marked(set.clone());
    let got = select.get_marked();
    assert_eq!(ids(&got), vec![5, 2, 9]);
    assert_eq!(got[1].title, "b");

    let other_order = vec![todo(9, "i"), todo(5, "e"), todo(2, "b")];
    let select = Select::<Todo>::new().set_marked(other_order);
    assert_eq!(sorted_ids(&select.get_marked()), sorted_ids(&set));
}

#[test]
fn get_marked_holds_each_id_once() {
    let select = Select::<Todo>::new().set_marked(vec![
        todo(4, "first"),
        todo(7, "g"),
        todo(4, "second"),
        todo(7, "h"),
        todo(1, "a"),
    ]);
    let got = select.get_marked();
    assert_eq!(ids(&got), vec![4, 7, 1]);
    assert_eq!(got[0].title, "first");
    assert_eq!(got[1].title, "g");
}

#[test]
fn set_marked_replaces_earlier_marks() {
    let select =
        Select::<Todo>::new().set_marked(vec![todo(1, "a")]).set_marked(vec![todo(2, "b")]);
    assert_eq!(ids(&select.get_marked()), vec![2]);
    assert!(!select.is_marked(1));
    assert!(select.is_marked(2));
}

#[test]
fn get_marked_is_a_copy() {
    let select = Select::<Todo>::new().set_marked(vec![todo(1, "a")]);
    let mut got = select.get_marked();
    got.clear();
    assert_eq!(ids(&select.get_marked()), vec![1]);
}

#[test]
fn events_are_told_apart() {
    assert_eq!(key(KeyCode::Up, NONE).to_input(), Input::Up);
    assert_eq!(key(KeyCode::Down, NONE).to_input(), Input::Down);
    assert_eq!(key(KeyCode::Char(' '), NONE).to_input(), Input::Toggle);
    assert_eq!(key(KeyCode::Char('c'), CONTROL).to_input(), Input::Interrupt);

    assert_eq!(key(KeyCode::Up, CONTROL).to_input(), Input::Other);
    assert_eq!(key(KeyCode::Down, 1).to_input(), Input::Other);
    assert_eq!(key(KeyCode::Char(' '), CONTROL).to_input(), Input::Other);
    assert_eq!(key(KeyCode::Char('c'), NONE).to_input(), Input::Other);
    assert_eq!(key(KeyCode::Char('c'), CONTROL | 1).to_input(), Input::Other);
    assert_eq!(key(KeyCode::Char('C'), CONTROL).to_input(), Input::Other);
    assert_eq!(key(KeyCode::Char('x'), NONE).to_input(), Input::Other);
    assert_eq!(key(KeyCode::Other, NONE).to_input(), Input::Other);
    assert_eq!(Event::Other.to_input(), Input::Other);
}

#[test]
fn modifier_bits_are_those_of_the_terminal() {
    assert_eq!(NONE, crossterm::event::KeyModifiers::NONE.bits());
    assert_eq!(CONTROL, crossterm::event::KeyModifiers::CONTROL.bits());
}

#[test]
fn events_move_the_list_as_their_inputs_do() {
    let items = vec![todo(1, "a"), todo(2, "b")];
    let mut select = Select::<Todo>::new().items(&items);
    assert_eq!(select.handle_event(&key(KeyCode::Down, NONE)), State::Rendering);
    assert_eq!(select.cursor(), 1);
    assert_eq!(select.handle_event(&key(KeyCode::Char(' '), NONE)), State::Rendering);
    assert_eq!(ids(&select.get_marked()), vec![2]);
    assert_eq!(select.handle_event(&key(KeyCode::Up, NONE)), State::Rendering);
    assert_eq!(select.cursor(), 0);
    assert_eq!(select.handle_event(&key(KeyCode::Char('q'), NONE)), State::Rendering);
    assert_eq!(select.handle_event(&Event::Other), State::Rendering);
    assert_eq!(select.handle_event(&key(KeyCode::Down, CONTROL)), State::Rendering);
    assert_eq!(select.cursor(), 0);
    assert_eq!(ids(&select.get_marked()), vec![2]);
}
