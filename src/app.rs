use vstd::prelude::*;
use crate::editor::{
    edit_input, empty_input, input_cursor, input_text, input_value, insert_at, reset_input,
    typed_char,
};
use crate::keys::{KeyCode, KeyEvent, KeyEventKind};
use crate::todo::{count_completed, items_view, max_id, TodoItem, TodoItemView};
use tui_input::Input;

verus! {

/// How keys are read: browsing the list, typing a new item, or the help screen.
#[derive(Debug, Clone, Copy, PartialEq, Eq, Structural)]
pub enum AppMode {
    Normal,
    Insert,
    Help,
}

/// What `str::trim` leaves of a text.
pub uninterp spec fn trim_of(s: Seq<char>) -> Seq<char>;

/// Relies on `str::trim`: leading and trailing whitespace is cut off, so the
/// result is never longer than the text.
#[verifier::external_body]
fn trim_text(s: &str) -> (r: String)
    ensures
        r@ == trim_of(s@),
        r@.len() <= s@.len(),
{
    s.trim().to_string()
}

/// A selection fits a list of `len` items: an index into it, or none when it is empty.
pub open spec fn selection_valid(len: nat, sel: Option<usize>) -> bool {
    match sel {
        None => len == 0,
        Some(i) => (i as nat) < len,
    }
}

/// The selection one step down, wrapping from the last item to the first.
pub open spec fn next_selection(len: nat, sel: Option<usize>) -> Option<usize> {
    if len == 0 {
        sel
    } else {
        match sel {
            None => Some(0),
            Some(i) => if i + 1 >= len { Some(0) } else { Some((i + 1) as usize) },
        }
    }
}

/// The selection one step up, wrapping from the first item to the last.
pub open spec fn previous_selection(len: nat, sel: Option<usize>) -> Option<usize> {
    if len == 0 {
        sel
    } else {
        match sel {
            None => Some(0),
            Some(i) => if i == 0 { Some((len - 1) as usize) } else { Some((i - 1) as usize) },
        }
    }
}

/// The selection once the item at `removed` has left a list of `old_len` items:
/// none when nothing is left; an index past the removed one moves up by one;
/// an index past the new end stops at the new last item; any other stays.
pub open spec fn adjusted_selection(sel: Option<usize>, old_len: nat, removed: nat) -> Option<usize> {
    let new_len = old_len - 1;
    if new_len <= 0 {
        None
    } else {
        match sel {
            None => None,
            Some(s) => if removed < s {
                Some((s - 1) as usize)
            } else if s >= new_len {
                Some((new_len - 1) as usize)
            } else {
                Some(s)
            },
        }
    }
}

/// Computes `adjusted_selection`.
pub fn adjust_selection(sel: Option<usize>, old_len: usize, removed: usize) -> (r: Option<usize>)
    requires
        removed < old_len,
    ensures
        r == adjusted_selection(sel, old_len as nat, removed as nat),
{
    let new_len = old_len - 1;
    if new_len == 0 {
        return None;
    }
    match sel {
        None => None,
        Some(s) => {
            if removed < s {
                Some(s - 1)
            } else if s >= new_len {
                Some(new_len - 1)
            } else {
                Some(s)
            }
        },
    }
}

/// The whole state of a session: the list, its selection, the mode, the line
/// being typed and whether the user asked to leave.
pub struct App {
    pub todos: Vec<TodoItem>,
    pub selected: Option<usize>,
    pub mode: AppMode,
    pub input: Input,
    /// The id that the next added item gets.
    pub next_id: usize,
    pub should_quit: bool,
    /// Where the list is kept.
    pub data_file: String,
}

impl App {
    /// The selection fits the list, every id lies below the counter, and the
    /// editor's cursor lies within its text.
    pub open spec fn wf(&self) -> bool {
        &&& selection_valid(self.todos@.len(), self.selected)
        &&& forall|i: int| 0 <= i < self.todos@.len() ==> #[trigger] self.todos@[i].id < self.next_id
        &&& input_cursor(self.input) <= input_text(self.input).len()
    }

    pub open spec fn items(&self) -> Seq<TodoItemView> {
        items_view(self.todos@)
    }

    /// Mode, line editor, quit flag and file stay as they were.
    pub open spec fn same_session(&self, pre: &App) -> bool {
        &&& self.mode == pre.mode
        &&& self.input == pre.input
        &&& self.should_quit == pre.should_quit
        &&& self.data_file@ == pre.data_file@
    }

    /// List, selection and id counter stay as they were.
    pub open spec fn same_list(&self, pre: &App) -> bool {
        &&& self.items() == pre.items()
        &&& self.selected == pre.selected
        &&& self.next_id == pre.next_id
    }

    /// Whether adding `text` adds an item: its trimmed form is not empty and
    /// ids are not used up.
    pub open spec fn adds(&self, text: Seq<char>) -> bool {
        trim_of(text).len() > 0 && self.next_id < usize::MAX
    }

    /// The list effect of adding `text`.
    pub open spec fn added(post: &App, pre: &App, text: Seq<char>) -> bool {
        if pre.adds(text) {
            &&& post.items() == pre.items().push(
                TodoItemView { id: pre.next_id, text: trim_of(text), completed: false },
            )
            &&& post.selected == Some(pre.items().len() as usize)
            &&& post.next_id == pre.next_id + 1
        } else {
            post.same_list(pre)
        }
    }

    /// The list effect of flipping the selected item.
    pub open spec fn toggled(post: &App, pre: &App) -> bool {
        &&& post.selected == pre.selected
        &&& post.next_id == pre.next_id
        &&& match pre.selected {
            None => post.items() == pre.items(),
            Some(i) => post.items() == pre.items().update(
                i as int,
                TodoItemView { completed: !pre.items()[i as int].completed, ..pre.items()[i as int] },
            ),
        }
    }

    /// The list effect of removing the selected item.
    pub open spec fn deleted(post: &App, pre: &App) -> bool {
        &&& post.next_id == pre.next_id
        &&& match pre.selected {
            None => post.items() == pre.items() && post.selected == pre.selected,
            Some(i) => {
                &&& post.items() == pre.items().remove(i as int)
                &&& post.selected == adjusted_selection(pre.selected, pre.items().len(), i as nat)
            },
        }
    }

    /// The list effect of moving the selection by `next_selection` (`forward`)
    /// or `previous_selection`.
    pub open spec fn moved(post: &App, pre: &App, forward: bool) -> bool {
        &&& post.items() == pre.items()
        &&& post.next_id == pre.next_id
        &&& post.selected == if forward {
            next_selection(pre.items().len(), pre.selected)
        } else {
            previous_selection(pre.items().len(), pre.selected)
        }
    }

    /// What a pressed key does in browsing mode; `save` tells whether the
    /// list changed.
    pub open spec fn normal_step(post: &App, pre: &App, code: KeyCode, save: bool) -> bool {
        &&& post.input == pre.input
        &&& post.data_file@ == pre.data_file@
        &&& match code {
            KeyCode::Char('q') => {
                &&& post.should_quit
                &&& post.mode == AppMode::Normal
                &&& post.same_list(pre)
                &&& !save
            },
            KeyCode::Char('i') => {
                &&& post.should_quit == pre.should_quit
                &&& post.mode == AppMode::Insert
                &&& post.same_list(pre)
                &&& !save
            },
            KeyCode::Char('?') => {
                &&& post.should_quit == pre.should_quit
                &&& post.mode == AppMode::Help
                &&& post.same_list(pre)
                &&& !save
            },
            KeyCode::Char(' ') => {
                &&& post.should_quit == pre.should_quit
                &&& post.mode == AppMode::Normal
                &&& App::toggled(post, pre)
                &&& save == pre.selected.is_some()
            },
            KeyCode::Char('d') => {
                &&& post.should_quit == pre.should_quit
                &&& post.mode == AppMode::Normal
                &&& App::deleted(post, pre)
                &&& save == pre.selected.is_some()
            },
            KeyCode::Up | KeyCode::Char('k') => {
                &&& post.should_quit == pre.should_quit
                &&& post.mode == AppMode::Normal
                &&& App::moved(post, pre, false)
                &&& !save
            },
            KeyCode::Down | KeyCode::Char('j') => {
                &&& post.should_quit == pre.should_quit
                &&& post.mode == AppMode::Normal
                &&& App::moved(post, pre, true)
                &&& !save
            },
            _ => post.same_session(pre) && post.same_list(pre) && !save,
        }
    }

    /// What a pressed key does while a new item is typed: escape drops the
    /// line, enter adds it, any other key goes to the line editor.
    pub open spec fn insert_step(post: &App, pre: &App, key: KeyEvent, save: bool) -> bool {
        &&& post.should_quit == pre.should_quit
        &&& post.data_file@ == pre.data_file@
        &&& match key.code {
            KeyCode::Esc => {
                &&& post.mode == AppMode::Normal
                &&& input_text(post.input) == Seq::<char>::empty()
                &&& input_cursor(post.input) == 0
                &&& post.same_list(pre)
                &&& !save
            },
            KeyCode::Enter => {
                &&& post.mode == AppMode::Normal
                &&& input_text(post.input) == Seq::<char>::empty()
                &&& input_cursor(post.input) == 0
                &&& App::added(post, pre, input_text(pre.input))
                &&& save == pre.adds(input_text(pre.input))
            },
            _ => {
                &&& post.mode == AppMode::Insert
                &&& post.same_list(pre)
                &&& !save
                &&& forall|c: char| #[trigger] typed_char(key, c) ==> {
                    &&& input_text(post.input) == insert_at(input_text(pre.input), input_cursor(pre.input), c)
                    &&& input_cursor(post.input) == input_cursor(pre.input) + 1
                }
            },
        }
    }

    /// What a pressed key does on the help screen: escape or `?` leave it.
    pub open spec fn help_step(post: &App, pre: &App, code: KeyCode, save: bool) -> bool {
        &&& post.should_quit == pre.should_quit
        &&& post.input == pre.input
        &&& post.data_file@ == pre.data_file@
        &&& post.same_list(pre)
        &&& !save
        &&& post.mode == match code {
            KeyCode::Esc | KeyCode::Char('?') => AppMode::Normal,
            _ => AppMode::Help,
        }
    }

    /// A session over `todos`, kept at `data_file`, in browsing mode with the
    /// first item selected, numbering new items from one past the largest id.
    pub fn new(data_file: String, todos: Vec<TodoItem>) -> (r: App)
        requires
            forall|i: int| 0 <= i < todos@.len() ==> #[trigger] todos@[i].id < usize::MAX,
        ensures
            r.wf(),
            r.items() == items_view(todos@),
            r.selected == if todos@.len() == 0 { None } else { Some(0usize) },
            r.mode == AppMode::Normal,
            input_text(r.input) == Seq::<char>::empty(),
            !r.should_quit,
            r.next_id == max_id(items_view(todos@)) + 1,
            r.data_file@ == data_file@,
    {
        let mut largest: usize = 0;
        let mut i: usize = 0;
        while i < todos.len()
            invariant
                i <= todos@.len(),
                largest < usize::MAX,
                largest as nat == max_id(items_view(todos@.take(i as int))),
                forall|j: int| 0 <= j < i ==> #[trigger] todos@[j].id <= largest,
                forall|j: int| 0 <= j < todos@.len() ==> #[trigger] todos@[j].id < usize::MAX,
            decreases todos@.len() - i,
        {
            proof {
                assert(items_view(todos@.take(i + 1)).drop_last() =~= items_view(todos@.take(i as int)));
            }
            if todos[i].id > largest {
                largest = todos[i].id;
            }
            i = i + 1;
        }
        proof {
            assert(todos@.take(i as int) =~= todos@);
        }
        let selected = if todos.len() == 0 { None } else { Some(0usize) };
        App {
            todos,
            selected,
            mode: AppMode::Normal,
            input: empty_input(),
            next_id: largest + 1,
            should_quit: false,
            data_file,
        }
    }

    /// Appends an item holding the trimmed `text` under the next id and
    /// selects it; does nothing when the trimmed text is empty. Returns
    /// whether the list changed, that is whether it is owed a save.
    pub fn add_todo(&mut self, text: String) -> (save: bool)
        requires
            old(self).wf(),
        ensures
            final(self).wf(),
            final(self).same_session(old(self)),
            App::added(final(self), old(self), text@),
            save == old(self).adds(text@),
    {
        let trimmed = trim_text(text.as_str());
        if trimmed.as_str().is_empty() || self.next_id == usize::MAX {
            return false;
        }
        let ghost pre = self.todos@;
        let todo = TodoItem::new(self.next_id, trimmed);
        self.todos.push(todo);
        self.next_id = self.next_id + 1;
        self.selected = Some(self.todos.len() - 1);
        proof {
            assert(items_view(self.todos@) =~= items_view(pre).push(todo@));
        }
        true
    }

    /// Flips the completion of the selected item, if any. Returns whether
    /// the list changed.
    pub fn toggle_current_todo(&mut self) -> (save: bool)
        requires
            old(self).wf(),
        ensures
            final(self).wf(),
            final(self).same_session(old(self)),
            App::toggled(final(self), old(self)),
            save == old(self).selected.is_some(),
    {
        match self.selected {
            None => false,
            Some(i) => {
                let ghost pre = self.todos@;
                self.todos[i].toggle_completion();
                proof {
                    assert(items_view(self.todos@) =~= items_view(pre).update(
                        i as int,
                        TodoItemView { completed: !pre[i as int].completed, ..pre[i as int]@ },
                    ));
                }
                true
            },
        }
    }

    /// Removes the selected item, if any, keeping the order of the rest, and
    /// moves the selection by `adjusted_selection`. Returns whether the list
    /// changed.
    pub fn delete_current_todo(&mut self) -> (save: bool)
        requires
            old(self).wf(),
        ensures
            final(self).wf(),
            final(self).same_session(old(self)),
            App::deleted(final(self), old(self)),
            save == old(self).selected.is_some(),
    {
        match self.selected {
            None => false,
            Some(i) => {
                let ghost pre = self.todos@;
                let old_len = self.todos.len();
                self.todos.remove(i);
                self.selected = adjust_selection(self.selected, old_len, i);
                proof {
                    assert(items_view(self.todos@) =~= items_view(pre).remove(i as int));
                    assert forall|j: int| 0 <= j < self.todos@.len() implies #[trigger] self.todos@[j].id
                        < self.next_id by {
                        if j >= i {
                            assert(self.todos@[j] == pre[j + 1]);
                        } else {
                            assert(self.todos@[j] == pre[j]);
                        }
                    }
                }
                true
            },
        }
    }

    /// Selects the next item, wrapping to the first; nothing on an empty list.
    pub fn next_item(&mut self)
        requires
            old(self).wf(),
        ensures
            final(self).wf(),
            final(self).same_session(old(self)),
            App::moved(final(self), old(self), true),
    {
        let len = self.todos.len();
        if len == 0 {
            return;
        }
        let selected = match self.selected {
            Some(i) => if i >= len - 1 { 0 } else { i + 1 },
            None => 0,
        };
        self.selected = Some(selected);
    }

    /// Selects the previous item, wrapping to the last; nothing on an empty list.
    pub fn previous_item(&mut self)
        requires
            old(self).wf(),
        ensures
            final(self).wf(),
            final(self).same_session(old(self)),
            App::moved(final(self), old(self), false),
    {
        let len = self.todos.len();
        if len == 0 {
            return;
        }
        let selected = match self.selected {
            Some(i) => if i == 0 { len - 1 } else { i - 1 },
            None => 0,
        };
        self.selected = Some(selected);
    }

    /// Runs one key event through the mode's table; anything but a press is
    /// ignored. Returns whether the list changed, that is whether it is owed
    /// a save.
    pub fn handle_key_event(&mut self, key: KeyEvent) -> (save: bool)
        requires
            old(self).wf(),
        ensures
            final(self).wf(),
            key.kind != KeyEventKind::Press ==> final(self).same_list(old(self))
                && final(self).same_session(old(self)) && !save,
            key.kind == KeyEventKind::Press ==> match old(self).mode {
                AppMode::Normal => App::normal_step(final(self), old(self), key.code, save),
                AppMode::Insert => App::insert_step(final(self), old(self), key, save),
                AppMode::Help => App::help_step(final(self), old(self), key.code, save),
            },
    {
        match key.kind {
            KeyEventKind::Press => {},
            _ => return false,
        }
        match self.mode {
            AppMode::Normal => match key.code {
                KeyCode::Char('q') => {
                    self.should_quit = true;
                    false
                },
                KeyCode::Char('i') => {
                    self.mode = AppMode::Insert;
                    false
                },
                KeyCode::Char('?') => {
                    self.mode = AppMode::Help;
                    false
                },
                KeyCode::Char(' ') => self.toggle_current_todo(),
                KeyCode::Char('d') => self.delete_current_todo(),
                KeyCode::Up | KeyCode::Char('k') => {
                    self.previous_item();
                    false
                },
                KeyCode::Down | KeyCode::Char('j') => {
                    self.next_item();
                    false
                },
                _ => false,
            },
            AppMode::Insert => match key.code {
                KeyCode::Esc => {
                    self.mode = AppMode::Normal;
                    reset_input(&mut self.input);
                    false
                },
                KeyCode::Enter => {
                    let text = input_value(&self.input);
                    let save = self.add_todo(text);
                    reset_input(&mut self.input);
                    self.mode = AppMode::Normal;
                    save
                },
                _ => {
                    edit_input(&mut self.input, &key);
                    false
                },
            },
            AppMode::Help => {
                match key.code {
                    KeyCode::Esc | KeyCode::Char('?') => self.mode = AppMode::Normal,
                    _ => {},
                }
                false
            },
        }
    }

    /// The number of completed items.
    pub fn completed_count(&self) -> (r: usize)
        ensures
            r as nat == count_completed(self.items()),
    {
        let mut count: usize = 0;
        let mut i: usize = 0;
        while i < self.todos.len()
            invariant
                i <= self.todos@.len(),
                count <= i,
                count as nat == count_completed(items_view(self.todos@.take(i as int))),
            decreases self.todos@.len() - i,
        {
            proof {
                assert(items_view(self.todos@.take(i + 1)).drop_last() =~= items_view(self.todos@.take(i as int)));
            }
            if self.todos[i].is_completed() {
                count = count + 1;
            }
            i = i + 1;
        }
        proof {
            assert(self.todos@.take(i as int) =~= self.todos@);
        }
        count
    }

    /// The line being typed.
    pub fn input_line(&self) -> (r: String)
        ensures
            r@ == input_text(self.input),
    {
        input_value(&self.input)
    }

    /// The number of items.
    pub fn total_count(&self) -> (r: usize)
        ensures
            r as nat == self.items().len(),
    {
        self.todos.len()
    }
}

} // verus!

verus! {

/// The selection after a run of moves, `true` for a step down and `false`
/// for a step up.
pub open spec fn navigate(len: nat, sel: Option<usize>, moves: Seq<bool>) -> Option<usize>
    decreases moves.len(),
{
    if moves.len() == 0 {
        sel
    } else {
        let sel = navigate(len, sel, moves.drop_last());
        if moves.last() {
            next_selection(len, sel)
        } else {
            previous_selection(len, sel)
        }
    }
}

/// Adding a text that trims to nothing leaves the number of items alone.
pub proof fn lemma_blank_add_keeps_count(pre: App, post: App, text: Seq<char>)
    requires
        App::added(&post, &pre, text),
        trim_of(text).len() == 0,
    ensures
        post.items().len() == pre.items().len(),
        post.items() == pre.items(),
{
}

proof fn lemma_max_id_push(s: Seq<TodoItemView>, t: TodoItemView)
    requires
        t.id as nat > max_id(s),
    ensures
        max_id(s.push(t)) == t.id as nat,
{
    assert(s.push(t).drop_last() =~= s);
}

/// Adding a text that does not trim to nothing adds exactly one item, at the
/// end, and selects it. While the counter stands one past the largest id, as
/// it does when a session starts, the new id is one past the largest id (one
/// on an empty list), and the counter again stands one past the largest id.
pub proof fn lemma_add_appends_next_id(pre: App, post: App, text: Seq<char>)
    requires
        pre.wf(),
        App::added(&post, &pre, text),
        trim_of(text).len() > 0,
        pre.next_id < usize::MAX,
        pre.next_id as nat == max_id(pre.items()) + 1,
    ensures
        post.items().len() == pre.items().len() + 1,
        post.items().last().id as nat == max_id(pre.items()) + 1,
        pre.items().len() == 0 ==> post.items().last().id == 1,
        post.selected == Some((post.items().len() - 1) as usize),
        post.next_id as nat == max_id(post.items()) + 1,
{
    lemma_max_id_push(pre.items(), post.items().last());
    assert(pre.items().push(post.items().last()) == post.items());
    if pre.items().len() == 0 {
        assert(max_id(pre.items()) == 0);
    }
}

/// On a non-empty list with a valid selection, any run of moves up and down
/// keeps the selection on an item.
pub proof fn lemma_navigation_stays_in_range(len: nat, sel: Option<usize>, moves: Seq<bool>)
    requires
        0 < len <= usize::MAX,
        selection_valid(len, sel),
    ensures
        selection_valid(len, navigate(len, sel, moves)),
    decreases moves.len(),
{
    if moves.len() > 0 {
        lemma_navigation_stays_in_range(len, sel, moves.drop_last());
    }
}

/// Toggling twice with the same selection gives back the list as it was.
pub proof fn lemma_toggle_twice(pre: App, mid: App, post: App)
    requires
        pre.wf(),
        App::toggled(&mid, &pre),
        App::toggled(&post, &mid),
    ensures
        post.items() == pre.items(),
        post.selected == pre.selected,
{
    if pre.selected is Some {
        assert(post.items() =~= pre.items());
    }
}

/// Deleting from a list of one item leaves it empty with nothing selected.
pub proof fn lemma_delete_only_item(pre: App, post: App)
    requires
        pre.wf(),
        pre.items().len() == 1,
        App::deleted(&post, &pre),
    ensures
        post.items().len() == 0,
        post.selected is None,
{
}

/// Deleting the selected last item of a longer list keeps the items before
/// it and selects the new last one.
pub proof fn lemma_delete_last_item(pre: App, post: App)
    requires
        pre.wf(),
        pre.items().len() >= 2,
        pre.selected is Some,
        pre.selected->Some_0 + 1 == pre.items().len(),
        App::deleted(&post, &pre),
    ensures
        post.items() == pre.items().take(pre.items().len() - 1),
        post.selected == Some((pre.selected->Some_0 - 1) as usize),
{
    assert(pre.items().remove(pre.items().len() - 1) =~= pre.items().take(pre.items().len() - 1));
}

} // verus!
