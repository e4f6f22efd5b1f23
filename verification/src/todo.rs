//! A to-do list: rows that can be ticked off and deleted, a cap on how many
//! rows there are, and the small dialogue for adding one.

use vstd::prelude::*;
use crate::text::{blank, is_blank};

verus! {

/// The most rows a list takes: as many as fit in a window 800 pixels high
/// when each row with its gap takes 66.
pub const MAX_ITEMS: usize = 12;

/// What a row is, as plain values.
pub struct ListItemModel {
    pub id: int,
    pub text: Seq<char>,
    pub done: bool,
    pub to_remove: bool,
}

/// One row: a task, whether it is done, and whether it was marked for
/// deletion. The `id` is the row's place in the list, counted from 0.
pub struct ListItem {
    id: i32,
    text: String,
    done: bool,
    pub to_remove: bool,
}

impl View for ListItem {
    type V = ListItemModel;

    closed spec fn view(&self) -> ListItemModel {
        ListItemModel {
            id: self.id as int,
            text: self.text@,
            done: self.done,
            to_remove: self.to_remove,
        }
    }
}

impl ListItemModel {
    /// The row after a frame in which its main button was clicked
    /// (`toggle`), its delete button was clicked (`delete`), both or
    /// neither. A click on the main button flips `done`; a click on the
    /// delete button marks the row, and nothing unmarks it.
    pub open spec fn pressed(self, toggle: bool, delete: bool) -> ListItemModel {
        ListItemModel {
            done: if toggle {
                !self.done
            } else {
                self.done
            },
            to_remove: self.to_remove || delete,
            ..self
        }
    }
}

impl ListItem {
    /// A row that is neither done nor marked for deletion.
    pub fn new(text: String, id: i32) -> (item: ListItem)
        ensures
            item@ == (ListItemModel { id: id as int, text: text@, done: false, to_remove: false }),
    {
        ListItem { id, text, done: false, to_remove: false }
    }

    /// Gives the row another place in the list.
    pub fn set_id(&mut self, id: i32)
        ensures
            final(self)@ == (ListItemModel { id: id as int, ..old(self)@ }),
    {
        self.id = id;
    }

    /// The row's place in the list.
    pub fn get_id(&self) -> (id: i32)
        ensures
            id as int == self@.id,
    {
        self.id
    }

    /// The task.
    pub fn get_text(&self) -> (text: &String)
        ensures
            text@ == self@.text,
    {
        &self.text
    }

    /// Whether the task is ticked off.
    pub fn is_done(&self) -> (done: bool)
        ensures
            done == self@.done,
    {
        self.done
    }

    /// Applies one frame's clicks on the row's two buttons.
    pub fn press(&mut self, toggle: bool, delete: bool)
        ensures
            final(self)@ == old(self)@.pressed(toggle, delete),
    {
        if toggle {
            self.done = !self.done;
        }
        if delete {
            self.to_remove = true;
        }
    }
}

/// The test a row passes if it was not marked for deletion.
pub open spec fn stays() -> spec_fn(ListItemModel) -> bool {
    |item: ListItemModel| !item.to_remove
}

/// `items` with each `id` set to the row's position.
pub open spec fn renumbered(items: Seq<ListItemModel>) -> Seq<ListItemModel> {
    Seq::new(items.len(), |i: int| ListItemModel { id: i, ..items[i] })
}

/// `items` without the rows marked for deletion, the others in their old
/// order and numbered anew from 0.
pub open spec fn swept(items: Seq<ListItemModel>) -> Seq<ListItemModel> {
    renumbered(items.filter(stays()))
}

/// Whether the rows are numbered 0, 1, 2, ... in order.
pub open spec fn numbered(items: Seq<ListItemModel>) -> bool {
    forall|i: int| 0 <= i < items.len() ==> (#[trigger] items[i]).id == i
}

/// What a list is, as plain values.
pub struct TodoListModel {
    pub name: Seq<char>,
    pub items: Seq<ListItemModel>,
}

impl TodoListModel {
    /// The list after an attempt to add `text`: a full list stays as it is,
    /// any other gets a fresh row at the end.
    pub open spec fn added(self, text: Seq<char>) -> TodoListModel {
        if self.items.len() < MAX_ITEMS {
            TodoListModel {
                items: self.items.push(
                    ListItemModel {
                        id: self.items.len() as int,
                        text,
                        done: false,
                        to_remove: false,
                    },
                ),
                ..self
            }
        } else {
            self
        }
    }

    /// Whether the list is within its cap and numbered in order.
    pub open spec fn valid(self) -> bool {
        self.items.len() <= MAX_ITEMS && numbered(self.items)
    }
}

/// The list.
pub struct TodoList {
    todos: Vec<ListItem>,
    name: String,
}

/// The rows in `items`, each as plain values.
pub open spec fn rows(items: Seq<ListItem>) -> Seq<ListItemModel> {
    Seq::new(items.len(), |i: int| items[i]@)
}

impl View for TodoList {
    type V = TodoListModel;

    closed spec fn view(&self) -> TodoListModel {
        TodoListModel { name: self.name@, items: rows(self.todos@) }
    }
}

/// Sweeping never makes a list longer, leaves no marked row behind, and
/// leaves the rows numbered in order.
pub proof fn lemma_swept(items: Seq<ListItemModel>)
    ensures
        swept(items).len() <= items.len(),
        numbered(swept(items)),
        forall|i: int| 0 <= i < swept(items).len() ==> !(#[trigger] swept(items)[i]).to_remove,
    decreases items.len(),
{
    reveal(Seq::filter);
    if items.len() > 0 {
        lemma_swept(items.drop_last());
    }
}

/// Sweeping a list without marked rows keeps every row in its place.
pub proof fn lemma_swept_keeps_unmarked(items: Seq<ListItemModel>)
    requires
        forall|i: int| 0 <= i < items.len() ==> !(#[trigger] items[i]).to_remove,
    ensures
        items.filter(stays()) == items,
        swept(items) == renumbered(items),
    decreases items.len(),
{
    reveal(Seq::filter);
    if items.len() > 0 {
        lemma_swept_keeps_unmarked(items.drop_last());
        assert(items.drop_last().push(items.last()) =~= items);
    }
}

impl TodoList {
    #[verifier::type_invariant]
    spec fn well_formed(self) -> bool {
        self@.valid()
    }

    /// An empty list called `name`.
    pub fn new(name: String) -> (list: TodoList)
        ensures
            list@ == (TodoListModel { name: name@, items: Seq::empty() }),
    {
        let list = TodoList { todos: Vec::new(), name };
        assert(list@.items =~= Seq::empty());
        list
    }

    /// Adds a row for `text` at the end, unless the list is full.
    pub fn add(&mut self, text: String)
        ensures
            final(self)@ == old(self)@.added(text@),
            final(self)@.valid(),
    {
        proof {
            use_type_invariant(&*self);
        }
        if self.todos.len() < MAX_ITEMS {
            let id: i32 = self.todos.len() as i32;
            let mut items: Vec<ListItem> = Vec::new();
            core::mem::swap(&mut self.todos, &mut items);
            items.push(ListItem::new(text, id));
            proof {
                assert(rows(items@) =~= old(self)@.added(text@).items);
            }
            self.todos = items;
        }
    }

    /// The title of the list.
    pub fn get_name(&self) -> (name: &String)
        ensures
            name@ == self@.name,
    {
        &self.name
    }

    /// How many rows the list has.
    pub fn len(&self) -> (n: usize)
        ensures
            n == self@.items.len(),
            n <= MAX_ITEMS,
    {
        proof {
            use_type_invariant(self);
        }
        self.todos.len()
    }

    /// Row `index`.
    pub fn item(&self, index: usize) -> (item: &ListItem)
        requires
            index < self@.items.len(),
        ensures
            item@ == self@.items[index as int],
            item@.id == index,
    {
        proof {
            use_type_invariant(self);
        }
        &self.todos[index]
    }

    /// Applies one frame's clicks on the two buttons of row `index`. A row
    /// that is not there takes no clicks.
    pub fn press(&mut self, index: usize, toggle: bool, delete: bool)
        ensures
            index < old(self)@.items.len() ==> final(self)@ == (TodoListModel {
                items: old(self)@.items.update(
                    index as int,
                    old(self)@.items[index as int].pressed(toggle, delete),
                ),
                ..old(self)@
            }),
            index >= old(self)@.items.len() ==> final(self)@ == old(self)@,
    {
        proof {
            use_type_invariant(&*self);
        }
        if index < self.todos.len() {
            let mut items: Vec<ListItem> = Vec::new();
            core::mem::swap(&mut self.todos, &mut items);
            items[index].press(toggle, delete);
            proof {
                assert(rows(items@) =~= old(self)@.items.update(
                    index as int,
                    old(self)@.items[index as int].pressed(toggle, delete),
                ));
            }
            self.todos = items;
        }
    }

    /// Drops the rows marked for deletion and numbers the others anew, in
    /// their old order.
    pub fn update(&mut self)
        ensures
            final(self)@ == (TodoListModel { items: swept(old(self)@.items), ..old(self)@ }),
            final(self)@.valid(),
    {
        proof {
            use_type_invariant(&*self);
        }
        let mut items: Vec<ListItem> = Vec::new();
        core::mem::swap(&mut self.todos, &mut items);
        let ghost before = rows(items@);
        let ghost mut seen: int = 0;
        let mut i: usize = 0;
        proof {
            reveal(Seq::filter);
            assert(before.take(0) =~= Seq::empty());
        }
        while i < items.len()
            invariant
                0 <= seen <= before.len(),
                before.len() <= MAX_ITEMS,
                i == before.take(seen).filter(stays()).len(),
                items@.len() == i + (before.len() - seen),
                forall|k: int| 0 <= k < i ==> (#[trigger] items@[k])@ == swept(before.take(seen))[k],
                forall|k: int|
                    i <= k < items@.len() ==> (#[trigger] items@[k])@ == before[k - i + seen],
            decreases items.len() - i,
        {
            proof {
                reveal(Seq::filter);
                assert(before.take(seen + 1).drop_last() =~= before.take(seen));
                assert(before.take(seen + 1).last() == before[seen]);
            }
            if items[i].to_remove {
                items.remove(i);
            } else {
                items[i].set_id(i as i32);
                i += 1;
            }
            proof {
                seen = seen + 1;
            }
        }
        proof {
            assert(before.take(seen) =~= before);
            assert(rows(items@) =~= swept(before));
            lemma_swept(before);
        }
        self.todos = items;
    }
}

/// The list together with the dialogue for adding a row: either the "add"
/// button is on screen, or a text field with a "done" button.
pub struct Controller {
    todo_list: TodoList,
    adding_item: bool,
    new_item_text: String,
}

/// What the dialogue is, as plain values.
pub struct ControllerModel {
    pub list: TodoListModel,
    pub adding: bool,
    pub draft: Seq<char>,
}

impl ControllerModel {
    /// After a frame that showed the "add" button: a click opens the text
    /// field.
    pub open spec fn add_button_shown(self, clicked: bool) -> ControllerModel {
        ControllerModel { adding: self.adding || clicked, ..self }
    }

    /// After a click on "done" with `typed` in the text field: `typed` joins
    /// the list unless it `is_blank`, the field is emptied and closed.
    pub open spec fn confirmed(self, typed: Seq<char>, is_blank: bool) -> ControllerModel {
        ControllerModel {
            list: if is_blank {
                self.list
            } else {
                self.list.added(typed)
            },
            adding: false,
            draft: Seq::empty(),
        }
    }

    /// After a frame that showed the text field, in which the user left
    /// `typed` in it and clicked "done" or did not. Text counts as blank if
    /// it holds nothing but white space.
    pub open spec fn add_option_shown(self, typed: Seq<char>, done_clicked: bool) -> ControllerModel {
        if done_clicked {
            self.confirmed(typed, blank(typed))
        } else {
            ControllerModel { draft: typed, ..self }
        }
    }
}

impl View for Controller {
    type V = ControllerModel;

    closed spec fn view(&self) -> ControllerModel {
        ControllerModel {
            list: self.todo_list@,
            adding: self.adding_item,
            draft: self.new_item_text@,
        }
    }
}

impl Controller {
    /// An empty list called "Todo List:", with the dialogue closed.
    pub fn new() -> (c: Controller)
        ensures
            c@ == (ControllerModel {
                list: TodoListModel { name: "Todo List:"@, items: Seq::empty() },
                adding: false,
                draft: Seq::empty(),
            }),
    {
        Controller {
            todo_list: TodoList::new(String::from_str("Todo List:")),
            adding_item: false,
            new_item_text: String::new(),
        }
    }

    /// Adds a row for `text`, unless the list is full.
    pub fn add(&mut self, text: String)
        ensures
            final(self)@ == (ControllerModel { list: old(self)@.list.added(text@), ..old(self)@ }),
    {
        self.todo_list.add(text);
    }

    /// Whether the text field is on screen rather than the "add" button.
    pub fn is_adding(&self) -> (adding: bool)
        ensures
            adding == self@.adding,
    {
        self.adding_item
    }

    /// What the text field holds.
    pub fn draft(&self) -> (text: &String)
        ensures
            text@ == self@.draft,
    {
        &self.new_item_text
    }

    /// The list.
    pub fn list(&self) -> (list: &TodoList)
        ensures
            list@ == self@.list,
    {
        &self.todo_list
    }

    /// Handles a frame that showed the "add" button.
    pub fn display_add_button(&mut self, clicked: bool)
        ensures
            final(self)@ == old(self)@.add_button_shown(clicked),
    {
        if clicked {
            self.adding_item = true;
        }
    }

    /// Handles a frame that showed the text field; `typed` is what the
    /// field holds at the end of the frame.
    pub fn display_add_option(&mut self, typed: String, done_clicked: bool)
        ensures
            final(self)@ == old(self)@.add_option_shown(typed@, done_clicked),
    {
        if done_clicked {
            let nothing_typed = is_blank(typed.as_str());
            self.confirm(typed, nothing_typed);
        } else {
            self.new_item_text = typed;
        }
    }

    /// Handles a click on "done" with `typed` in the text field, given
    /// whether `typed` counts as blank.
    pub fn confirm(&mut self, typed: String, is_blank: bool)
        ensures
            final(self)@ == old(self)@.confirmed(typed@, is_blank),
    {
        if !is_blank {
            self.add(typed);
        }
        self.new_item_text = String::new();
        self.adding_item = false;
    }

    /// Applies one frame's clicks on the two buttons of row `index`.
    pub fn press(&mut self, index: usize, toggle: bool, delete: bool)
        ensures
            final(self)@.adding == old(self)@.adding,
            final(self)@.draft == old(self)@.draft,
            index < old(self)@.list.items.len() ==> final(self)@.list == (TodoListModel {
                items: old(self)@.list.items.update(
                    index as int,
                    old(self)@.list.items[index as int].pressed(toggle, delete),
                ),
                ..old(self)@.list
            }),
            index >= old(self)@.list.items.len() ==> final(self)@.list == old(self)@.list,
    {
        self.todo_list.press(index, toggle, delete);
    }

    /// Sweeps the list: rows marked for deletion go, the others are
    /// numbered anew.
    pub fn update(&mut self)
        ensures
            final(self)@ == (ControllerModel {
                list: TodoListModel {
                    items: swept(old(self)@.list.items),
                    ..old(self)@.list
                },
                ..old(self)@
            }),
    {
        self.todo_list.update();
    }
}

} // verus!
