//! The items that a wizard configures, its steps, and the flow through
//! the steps.

use crate::runtime::keys::KeyEvent;
use vstd::prelude::*;
use vstd::string::*;

verus! {

/// Trait for items that can be configured via wizards
pub trait WizardItem: Sized {
    type Id;

    fn id(&self) -> Self::Id;

    fn display_name(&self) -> String;

    fn is_valid(&self) -> Result<(), String>;

    fn default_item() -> Self;
}

/// Action returned by step's handle_key
#[derive(Debug, Clone, Copy, PartialEq, Eq, Structural)]
pub enum StepAction {
    Continue,
    Next,
    Previous,
    Cancel,
    Save,
}

/// Trait for individual wizard steps
pub trait WizardStep<T: WizardItem> {
    fn title(&self) -> &str;

    fn help_text(&self) -> &str;

    fn handle_key(&mut self, key: KeyEvent, item: &mut T) -> StepAction;

    fn validate(&self, item: &T) -> Result<(), String>;

    /// Whether the step may be passed over.
    fn can_skip(&self) -> (skip: bool)
        default_ensures
            !skip,
    {
        false
    }

    /// Optional step-specific navigation hint to override default
    /// navigation keybinds: pairs of key and description, two blanks
    /// between the pairs.
    fn navigation_hint(&self) -> (hint: Option<&str>)
        default_ensures
            hint is None,
    {
        None
    }

    /// Content area height in lines for this step, without help text and
    /// footer: three lines, for a single input with its border, unless the
    /// step says otherwise.
    fn content_height(&self) -> (rows: u16)
        default_ensures
            rows == 3,
    {
        3
    }
}

/// Wizard mode (creating new or editing existing)
#[derive(Debug)]
pub enum WizardMode<Id> {
    Creating,
    Editing(Id),
}

/// Wizard flow orchestrator
pub struct WizardFlow<T: WizardItem, S: WizardStep<T>> {
    pub(crate) steps: Vec<S>,
    pub(crate) current_step_idx: usize,
    pub(crate) item: T,
    pub mode: WizardMode<T::Id>,
}

impl<T: WizardItem, S: WizardStep<T>> WizardFlow<T, S> {
    /// The steps of the flow.
    pub closed spec fn spec_steps(&self) -> Seq<S> {
        self.steps@
    }

    /// Index of the step that the flow is at.
    pub closed spec fn spec_index(&self) -> int {
        self.current_step_idx as int
    }

    /// The item that the flow works on.
    pub closed spec fn spec_item(&self) -> T {
        self.item
    }

    /// Whether the flow creates an item or edits one.
    pub closed spec fn spec_mode(&self) -> WizardMode<T::Id> {
        self.mode
    }

    /// The flow is at one of its steps.
    pub open spec fn wf(&self) -> bool {
        0 <= self.spec_index() < self.spec_steps().len()
    }

    /// A flow at the first of `steps`, on a fresh item.
    pub fn new(steps: Vec<S>, mode: WizardMode<T::Id>) -> (flow: Self)
        ensures
            flow.spec_steps() == steps@,
            flow.spec_index() == 0,
            flow.spec_mode() == mode,
            flow.wf() == (steps@.len() > 0),
    {
        let item = T::default_item();
        Self { steps, current_step_idx: 0, item, mode }
    }

    /// Puts `item` in the place of the flow's item.
    pub fn set_item(&mut self, item: T)
        ensures
            final(self).spec_item() == item,
            final(self).spec_steps() == old(self).spec_steps(),
            final(self).spec_index() == old(self).spec_index(),
            final(self).spec_mode() == old(self).spec_mode(),
    {
        self.item = item;
    }

    /// The step that the flow is at.
    pub fn current_step(&self) -> (step: &S)
        requires
            self.wf(),
        ensures
            *step == self.spec_steps()[self.spec_index()],
    {
        &self.steps[self.current_step_idx]
    }

    /// The item that the flow works on.
    pub fn item(&self) -> (item: &T)
        ensures
            *item == self.spec_item(),
    {
        &self.item
    }

    /// Number of steps.
    pub fn step_count(&self) -> (count: usize)
        ensures
            count == self.spec_steps().len(),
    {
        self.steps.len()
    }

    /// Number of the current step, counted from one.
    pub fn current_step_number(&self) -> (number: usize)
        requires
            self.wf(),
        ensures
            number == self.spec_index() + 1,
    {
        let count = self.steps.len();
        self.current_step_idx + 1
    }

    /// Whether there is a step before this one.
    pub fn can_go_back(&self) -> (can: bool)
        ensures
            can == (self.spec_index() > 0),
    {
        self.current_step_idx > 0
    }

    /// Whether there is a step behind this one.
    pub fn can_go_forward(&self) -> (can: bool)
        requires
            self.spec_steps().len() > 0,
        ensures
            can == (self.spec_index() < self.spec_steps().len() - 1),
    {
        self.current_step_idx < self.steps.len() - 1
    }

    /// Goes to the next step; an error at the last.
    pub fn advance(&mut self) -> (r: Result<(), String>)
        requires
            old(self).spec_steps().len() > 0,
        ensures
            final(self).spec_steps() == old(self).spec_steps(),
            final(self).spec_item() == old(self).spec_item(),
            final(self).spec_mode() == old(self).spec_mode(),
            r is Ok == (old(self).spec_index() < old(self).spec_steps().len() - 1),
            r is Ok ==> final(self).spec_index() == old(self).spec_index() + 1,
            r matches Err(e) ==> final(self).spec_index() == old(self).spec_index() && e@
                == "Already at last step"@,
            old(self).wf() ==> final(self).wf(),
    {
        if !self.can_go_forward() {
            return Err("Already at last step".to_owned());
        }
        let count = self.steps.len();
        self.current_step_idx += 1;
        Ok(())
    }

    /// Goes to the step before; an error at the first.
    pub fn go_back(&mut self) -> (r: Result<(), String>)
        ensures
            final(self).spec_steps() == old(self).spec_steps(),
            final(self).spec_item() == old(self).spec_item(),
            final(self).spec_mode() == old(self).spec_mode(),
            r is Ok == (old(self).spec_index() > 0),
            r is Ok ==> final(self).spec_index() == old(self).spec_index() - 1,
            r matches Err(e) ==> final(self).spec_index() == old(self).spec_index() && e@
                == "Already at first step"@,
            old(self).wf() ==> final(self).wf(),
    {
        if !self.can_go_back() {
            return Err("Already at first step".to_owned());
        }
        self.current_step_idx -= 1;
        Ok(())
    }

    /// Dispatch a key event to the currently active step. What the step
    /// does with the key is its own matter; the flow stays at the step.
    pub fn handle_key(&mut self, key: KeyEvent) -> (action: StepAction)
        requires
            old(self).wf(),
        ensures
            final(self).spec_index() == old(self).spec_index(),
            final(self).spec_steps().len() == old(self).spec_steps().len(),
            final(self).spec_mode() == old(self).spec_mode(),
            final(self).wf(),
    {
        let idx = self.current_step_idx;
        self.steps[idx].handle_key(key, &mut self.item)
    }
}

} // verus!
