//! The state of a wizard and the messages that change it.

use crate::components::list::ListState;
use crate::components::text_input::TextInput;
use crate::runtime::keys::KeyEvent;
use crate::wizard::framework::{WizardFlow, WizardItem, WizardStep};
use vstd::prelude::*;
use vstd::string::*;

verus! {

/// What the wizard shows.
#[derive(Debug, Clone, Copy, PartialEq, Eq, Structural)]
pub enum ViewMode {
    List,
    Wizard,
    Confirmation,
}

/// The state of a wizard over items of one kind.
pub struct GenericWizardModel<T: WizardItem, S: WizardStep<T>> {
    pub items: Vec<T>,
    pub selected_idx: usize,
    pub list_state: ListState,
    pub filter: TextInput,
    pub wizard: Option<WizardFlow<T, S>>,
    pub view_mode: ViewMode,
    pub pending_delete: Option<T::Id>,
    pub is_open: bool,
}

impl<T: WizardItem, S: WizardStep<T>> GenericWizardModel<T, S> {
    /// A closed wizard without items.
    pub fn new() -> (model: Self)
        ensures
            model.items@.len() == 0,
            model.selected_idx == 0,
            model.list_state.selected == 0,
            model.list_state.viewport_offset == 0,
            model.filter.wf(),
            model.filter.spec_text() == Seq::<char>::empty(),
            model.wizard is None,
            model.view_mode == ViewMode::List,
            model.pending_delete is None,
            !model.is_open,
    {
        Self {
            items: Vec::new(),
            selected_idx: 0,
            list_state: ListState::new(),
            filter: TextInput::new(),
            wizard: None,
            view_mode: ViewMode::List,
            pending_delete: None,
            is_open: false,
        }
    }

    /// Opens the wizard on the list of `items`, the first selected.
    pub fn open(&mut self, items: Vec<T>)
        ensures
            final(self).items@ == items@,
            final(self).is_open,
            final(self).view_mode == ViewMode::List,
            final(self).selected_idx == 0,
            final(self).list_state.selected == 0,
            final(self).list_state.viewport_offset == 0,
            final(self).filter == old(self).filter,
            final(self).wizard == old(self).wizard,
            final(self).pending_delete == old(self).pending_delete,
    {
        self.items = items;
        self.is_open = true;
        self.view_mode = ViewMode::List;
        self.selected_idx = 0;
        self.list_state.selected = 0;
        self.list_state.viewport_offset = 0;
    }

    /// Closes the wizard: the flow and a pending deletion are given up,
    /// the list starts over.
    pub fn close(&mut self)
        ensures
            !final(self).is_open,
            final(self).wizard is None,
            final(self).view_mode == ViewMode::List,
            final(self).pending_delete is None,
            final(self).list_state.selected == 0,
            final(self).list_state.viewport_offset == 0,
            final(self).items@ == old(self).items@,
            final(self).selected_idx == old(self).selected_idx,
            final(self).filter == old(self).filter,
    {
        self.is_open = false;
        self.wizard = None;
        self.view_mode = ViewMode::List;
        self.pending_delete = None;
        self.list_state.selected = 0;
        self.list_state.viewport_offset = 0;
    }

    /// The selected item, where the selection is one of the items.
    pub fn selected_item(&self) -> (item: Option<&T>)
        ensures
            item is Some == (self.selected_idx < self.items@.len()),
            item matches Some(it) ==> *it == self.items@[self.selected_idx as int],
    {
        if self.selected_idx < self.items.len() {
            Some(&self.items[self.selected_idx])
        } else {
            None
        }
    }
}

impl<T: WizardItem, S: WizardStep<T>> Default for GenericWizardModel<T, S> {
    fn default() -> (model: Self)
        ensures
            model.items@.len() == 0,
            model.wizard is None,
            model.view_mode == ViewMode::List,
            !model.is_open,
    {
        Self::new()
    }
}

/// The messages of a wizard.
pub enum GenericWizardMsg<T: WizardItem> {
    Open(Vec<T>),
    Close,
    SelectItem(usize),
    ToggleItem(usize),
    DeleteItem(T::Id),
    ConfirmDelete(T::Id),
    CancelDelete,
    FilterItems(String),
    StartCreate,
    StartEdit(T::Id),
    WizardNext,
    WizardPrevious,
    WizardCancel,
    WizardSave,
    WizardKeyInput(KeyEvent),
    ItemsSaved(Result<Vec<T>, String>),
}

} // verus!
