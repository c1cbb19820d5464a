use vstd::prelude::*;

verus! {

/// One task of the list: its id never changes and is never reused.
#[derive(Debug, Clone)]
pub struct TodoItem {
    pub id: usize,
    pub text: String,
    pub completed: bool,
}

/// What an item holds, with its text as characters.
pub ghost struct TodoItemView {
    pub id: usize,
    pub text: Seq<char>,
    pub completed: bool,
}

impl View for TodoItem {
    type V = TodoItemView;

    open spec fn view(&self) -> TodoItemView {
        TodoItemView { id: self.id, text: self.text@, completed: self.completed }
    }
}

/// The views of a sequence of items, in order.
pub open spec fn items_view(s: Seq<TodoItem>) -> Seq<TodoItemView> {
    s.map_values(|t: TodoItem| t@)
}

/// The number of completed items of a sequence.
pub open spec fn count_completed(s: Seq<TodoItemView>) -> nat
    decreases s.len(),
{
    if s.len() == 0 {
        0
    } else {
        count_completed(s.drop_last()) + if s.last().completed { 1nat } else { 0nat }
    }
}

/// The largest id in a sequence of items, 0 for none.
pub open spec fn max_id(s: Seq<TodoItemView>) -> nat
    decreases s.len(),
{
    if s.len() == 0 {
        0
    } else if max_id(s.drop_last()) >= s.last().id as nat {
        max_id(s.drop_last())
    } else {
        s.last().id as nat
    }
}

impl TodoItem {
    /// A new, not yet completed item.
    pub fn new(id: usize, text: String) -> (r: TodoItem)
        ensures
            r@ == (TodoItemView { id, text: text@, completed: false }),
    {
        TodoItem { id, text, completed: false }
    }

    /// Flips the completion flag and leaves id and text alone.
    pub fn toggle_completion(&mut self)
        ensures
            final(self)@ == (TodoItemView { completed: !old(self).completed, ..old(self)@ }),
    {
        self.completed = !self.completed;
    }

    pub fn is_completed(&self) -> (r: bool)
        ensures
            r == self.completed,
    {
        self.completed
    }
}

} // verus!
