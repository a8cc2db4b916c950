//! The state of the create view: the user's input compared with the model a new
//! entity starts from, the fields whose input could not be read, leaving with unsaved
//! input, and saving.

use std::collections::HashMap;
use vstd::prelude::*;
use crate::edit_view::{copy_values, values_eq, FieldValues};
use crate::order::FieldId;
use crate::view_logic::{create_view_reaction, leave_decision, CreateEvent, CreateOutcome, LeaveDecision, Then};

verus! {

broadcast use vstd::std_specs::hash::group_hash_axioms;

/// The create view: the input the user built so far from the default model.
pub struct CrudCreateView {
    /// The model a new entity starts from.
    pub default_model: FieldValues,
    /// The user's input.
    pub input: FieldValues,
    /// Fields whose last input could not be read, with the error.
    pub input_errors: HashMap<FieldId, String>,
    /// Whether the user asked to leave the view.
    pub user_wants_to_leave: bool,
    /// Whether the dialog asking to leave with unsaved input is shown.
    pub show_leave_modal: bool,
    /// Whether a save request is running.
    pub save_pending: bool,
}

impl CrudCreateView {
    /// A create view whose input is the default model.
    pub fn new(default_model: FieldValues) -> (r: Self)
        ensures
            r.default_model@ == default_model@,
            r.input@ == default_model@,
            r.input_errors@ == Map::<FieldId, String>::empty(),
            !r.user_wants_to_leave,
            !r.show_leave_modal,
            !r.save_pending,
    {
        let input = copy_values(&default_model);
        CrudCreateView {
            default_model,
            input,
            input_errors: HashMap::new(),
            user_wants_to_leave: false,
            show_leave_modal: false,
            save_pending: false,
        }
    }

    /// Whether the input differs from the default model.
    pub fn input_changed(&self) -> (r: bool)
        ensures
            r == (self.input@ != self.default_model@),
    {
        !values_eq(&self.input, &self.default_model)
    }

    /// Whether the save buttons are disabled: while a save runs, or when there is
    /// nothing new to save.
    pub fn save_disabled(&self) -> (r: bool)
        ensures
            r == (self.save_pending || self.input@ == self.default_model@),
    {
        self.save_pending || !self.input_changed()
    }

    /// The user changed a field: a value that could be read goes into the input and
    /// clears the field's error; one that could not be read records the error.
    pub fn value_changed(&mut self, field: FieldId, result: Result<i64, String>)
        requires
            result is Ok ==> (field as nat) < old(self).input@.len(),
        ensures
            final(self).default_model == old(self).default_model,
            final(self).user_wants_to_leave == old(self).user_wants_to_leave,
            final(self).show_leave_modal == old(self).show_leave_modal,
            final(self).save_pending == old(self).save_pending,
            match result {
                Ok(value) => {
                    &&& final(self).input@ == old(self).input@.update(field as int, value)
                    &&& final(self).input_errors@ == old(self).input_errors@.remove(field)
                },
                Err(err) => {
                    &&& final(self).input@ == old(self).input@
                    &&& final(self).input_errors@ == old(self).input_errors@.insert(field, err)
                },
            },
    {
        match result {
            Ok(value) => {
                let n = self.input.len();
                assert(field < n);
                let index: usize = field as usize;
                self.input.set(index, value);
                let _ = self.input_errors.remove(&field);
            },
            Err(err) => {
                let _ = self.input_errors.insert(field, err);
            },
        }
    }

    /// The user asked to leave: with unsaved input the leave dialog opens, otherwise
    /// the view is left at once.
    pub fn request_leave(&mut self) -> (r: LeaveDecision)
        ensures
            final(self).user_wants_to_leave,
            final(self).default_model == old(self).default_model,
            final(self).input == old(self).input,
            final(self).input_errors == old(self).input_errors,
            final(self).save_pending == old(self).save_pending,
            r == if old(self).input@ != old(self).default_model@ {
                LeaveDecision::ShowLeaveModal
            } else {
                LeaveDecision::Leave
            },
            final(self).show_leave_modal == (old(self).show_leave_modal || r
                == LeaveDecision::ShowLeaveModal),
    {
        self.user_wants_to_leave = true;
        let decision = leave_decision(true, self.input_changed());
        if decision == LeaveDecision::ShowLeaveModal {
            self.show_leave_modal = true;
        }
        decision
    }

    /// The user cancelled leaving: the dialog closes and the view stays.
    pub fn cancel_leave(&mut self)
        ensures
            !final(self).show_leave_modal,
            !final(self).user_wants_to_leave,
            final(self).default_model == old(self).default_model,
            final(self).input == old(self).input,
            final(self).input_errors == old(self).input_errors,
            final(self).save_pending == old(self).save_pending,
    {
        self.show_leave_modal = false;
        self.user_wants_to_leave = false;
    }

    /// The user confirmed leaving: the dialog closes; the caller opens the list view.
    pub fn accept_leave(&mut self)
        ensures
            !final(self).show_leave_modal,
            final(self).user_wants_to_leave == old(self).user_wants_to_leave,
            final(self).default_model == old(self).default_model,
            final(self).input == old(self).input,
            final(self).input_errors == old(self).input_errors,
            final(self).save_pending == old(self).save_pending,
    {
        self.show_leave_modal = false;
    }

    /// The user asked to save: the save request starts with the current input and
    /// what to do after it.
    pub fn save(&mut self, then: Then) -> (r: (FieldValues, Then))
        ensures
            final(self).save_pending,
            final(self).default_model == old(self).default_model,
            final(self).input == old(self).input,
            final(self).input_errors == old(self).input_errors,
            final(self).user_wants_to_leave == old(self).user_wants_to_leave,
            final(self).show_leave_modal == old(self).show_leave_modal,
            r.0@ == old(self).input@,
            r.1 == then,
    {
        self.save_pending = true;
        (copy_values(&self.input), then)
    }

    /// The save request answered: the view reports the outcome, and after a successful
    /// save opens the view that `then` names.
    pub fn save_finished(&mut self, outcome: CreateOutcome, then: Then) -> (r: Vec<CreateEvent>)
        ensures
            !final(self).save_pending,
            final(self).default_model == old(self).default_model,
            final(self).input == old(self).input,
            final(self).input_errors == old(self).input_errors,
            final(self).user_wants_to_leave == old(self).user_wants_to_leave,
            final(self).show_leave_modal == old(self).show_leave_modal,
            match outcome {
                CreateOutcome::Saved { entity_id, with_validation_errors } => {
                    &&& r@.len() == 2
                    &&& r@[0] matches CreateEvent::EntityCreated { entity_id: i, with_validation_errors: w }
                        && i == entity_id && w == with_validation_errors
                    &&& match then {
                        Then::OpenEditView => r@[1] matches CreateEvent::OpenEditView(i) && i == entity_id,
                        Then::OpenListView => r@[1] is OpenListView,
                        Then::OpenCreateView => r@[1] is OpenCreateView,
                    }
                },
                CreateOutcome::Aborted { reason } => r@.len() == 1
                    && (r@[0] matches CreateEvent::EntityCreationAborted(x) && x == reason),
                CreateOutcome::CriticalValidationErrors => r@.len() == 1
                    && r@[0] is EntityNotCreatedDueToCriticalErrors,
                CreateOutcome::Failed(err) => r@.len() == 1
                    && (r@[0] matches CreateEvent::EntityCreationFailed(x) && x == err),
            },
    {
        self.save_pending = false;
        create_view_reaction(outcome, then)
    }
}

} // verus!
