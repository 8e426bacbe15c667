//! The modal popup: at most one pending interactive question, holding
//! the reply slot of the request that posed it.
//!
//! The popup resolves its slot exactly once. Option zero confirms;
//! every other option rejects; a cancellation from the authority, or a
//! confirmation with no option chosen, resolves with a cancellation
//! error. Delivery is never required: when the asking side has already
//! given up, the resolution is discarded silently.

use vstd::prelude::*;

use crate::agent::{canceled_outcome, BluezError, Responder};

verus! {

/// A yes/no question from the pairing authority, with the option cursor
/// and the request's reply slot.
pub struct YesNoPopup {
    question: String,
    selected: Option<usize>,
    responder: Option<Responder<()>>,
}

impl YesNoPopup {
    /// The popup still holds its reply slot.
    pub closed spec fn wf(&self) -> bool {
        self.responder is Some
    }

    /// The question posed to the operator.
    pub closed spec fn spec_question(&self) -> Seq<char> {
        self.question@
    }

    /// The option cursor.
    pub closed spec fn spec_selected(&self) -> Option<usize> {
        self.selected
    }

    /// A fresh popup for one question, owning the request's reply slot,
    /// with no option chosen yet.
    pub fn new(question: String, tx: Responder<()>) -> (r: YesNoPopup)
        ensures
            r.wf(),
            r.spec_question() == question@,
            r.spec_selected() is None,
    {
        YesNoPopup { question, selected: None, responder: Some(tx) }
    }

    /// The question, for rendering and inspection.
    pub fn question(&self) -> (r: &String)
        ensures
            r@ == self.spec_question(),
    {
        &self.question
    }

    /// The option cursor, for rendering and inspection.
    pub fn selected_index(&self) -> (r: Option<usize>)
        ensures
            r == self.spec_selected(),
    {
        self.selected
    }

    /// The options posed, first to last: confirm, then reject.
    pub fn options(&self) -> (r: Vec<String>)
        ensures
            r@.len() == 2,
            r@[0]@ == "Yes"@,
            r@[1]@ == "No"@,
    {
        let mut v: Vec<String> = Vec::new();
        v.push(String::from_str("Yes"));
        v.push(String::from_str("No"));
        v
    }

    /// Moves the option cursor one step down, clamping at the last
    /// option; an unset cursor lands on the first option.
    pub fn move_selector_down(&mut self)
        ensures
            final(self).wf() == old(self).wf(),
            final(self).spec_question() == old(self).spec_question(),
            final(self).spec_selected() == match old(self).spec_selected() {
                Some(i) => if i < 1 {
                    Some((i + 1) as usize)
                } else {
                    Some(1usize)
                },
                None => Some(0usize),
            },
    {
        match self.selected {
            Some(index) => {
                if index < 1 {
                    self.selected = Some(index + 1);
                } else {
                    self.selected = Some(1);
                }
            },
            None => {
                self.selected = Some(0);
            },
        }
    }

    /// Moves the option cursor one step up, clamping at the first
    /// option; an unset cursor lands on the first option.
    pub fn move_selector_up(&mut self)
        ensures
            final(self).wf() == old(self).wf(),
            final(self).spec_question() == old(self).spec_question(),
            final(self).spec_selected() == match old(self).spec_selected() {
                Some(i) => if i > 0 {
                    Some((i - 1) as usize)
                } else {
                    Some(0usize)
                },
                None => Some(0usize),
            },
    {
        match self.selected {
            Some(index) => {
                if index > 0 {
                    self.selected = Some(index - 1);
                } else {
                    self.selected = Some(0);
                }
            },
            None => {
                self.selected = Some(0);
            },
        }
    }

    /// The outcome the current option cursor stands for: option zero
    /// confirms, any other option rejects, and no option at all counts
    /// as a cancellation.
    pub fn decide(&self) -> (r: Result<(), BluezError>)
        ensures
            match self.spec_selected() {
                Some(i) => if i == 0 {
                    r is Ok
                } else {
                    r matches Err(BluezError::Rejected(m)) && m@ == "rejected"@
                },
                None => r matches Err(BluezError::Canceled(m)) && m@ == "canceled"@,
            },
    {
        match self.selected {
            Some(index) => {
                if index == 0 {
                    Ok(())
                } else {
                    Err(BluezError::Rejected(String::from_str("rejected")))
                }
            },
            None => canceled_outcome(),
        }
    }

    /// Resolves the reply slot with the outcome the option cursor
    /// stands for. The slot is consumed; a receiver that already gave
    /// up is tolerated silently.
    pub fn confirm(&mut self)
        requires
            old(self).wf(),
        ensures
            !final(self).wf(),
            final(self).spec_question() == old(self).spec_question(),
            final(self).spec_selected() == old(self).spec_selected(),
    {
        let outcome = self.decide();
        match self.responder.take() {
            Some(tx) => {
                let _ = tx.send(outcome);
            },
            None => {},
        }
    }

    /// Resolves the reply slot with [`canceled_outcome`]: the
    /// authority withdrew the question, superseding whatever the
    /// operator saw; the slot is not left dangling.
    pub fn cancel(&mut self)
        requires
            old(self).wf(),
        ensures
            !final(self).wf(),
            final(self).spec_question() == old(self).spec_question(),
            final(self).spec_selected() == old(self).spec_selected(),
    {
        match self.responder.take() {
            Some(tx) => {
                let _ = tx.send(canceled_outcome());
            },
            None => {},
        }
    }

    /// A plain copy of what a render pass needs.
    pub fn get_widget(&self) -> (r: YesNoPopupWidget)
        ensures
            r.question@ == self.spec_question(),
            r.selected == self.spec_selected(),
    {
        YesNoPopupWidget { question: self.question.clone(), selected: self.selected }
    }
}

/// The drawable face of a yes/no popup: its question and option cursor,
/// without the reply slot.
pub struct YesNoPopupWidget {
    pub question: String,
    pub selected: Option<usize>,
}

/// A question with an enumerated option list and an option cursor, for
/// prompts whose options are not a fixed pair.
pub struct QuestionPopup {
    question: String,
    options: Vec<String>,
    selected: Option<usize>,
}

impl QuestionPopup {
    /// The cursor, when set, points at an option.
    pub closed spec fn wf(&self) -> bool {
        match self.selected {
            Some(i) => (i as int) < self.options@.len(),
            None => true,
        }
    }

    /// The question posed to the operator.
    pub closed spec fn spec_question(&self) -> Seq<char> {
        self.question@
    }

    /// The options posed, first to last.
    pub closed spec fn spec_options(&self) -> Seq<String> {
        self.options@
    }

    /// The option cursor.
    pub closed spec fn spec_selected(&self) -> Option<usize> {
        self.selected
    }

    /// A fresh popup with no option chosen yet.
    pub fn new(question: String, options: Vec<String>) -> (r: QuestionPopup)
        ensures
            r.wf(),
            r.spec_question() == question@,
            r.spec_options() == options@,
            r.spec_selected() is None,
    {
        QuestionPopup { question, options, selected: None }
    }

    /// The question, for rendering and inspection.
    pub fn question(&self) -> (r: &String)
        ensures
            r@ == self.spec_question(),
    {
        &self.question
    }

    /// The options, for rendering and inspection.
    pub fn options(&self) -> (r: &Vec<String>)
        ensures
            r@ == self.spec_options(),
    {
        &self.options
    }

    /// The option cursor, for rendering and inspection.
    pub fn selected_index(&self) -> (r: Option<usize>)
        ensures
            r == self.spec_selected(),
    {
        self.selected
    }

    /// Moves the option cursor one step down, clamping at the last
    /// option; an unset cursor lands on the first option of a
    /// non-empty list.
    pub fn move_selector_down(&mut self)
        requires
            old(self).wf(),
        ensures
            final(self).wf(),
            final(self).spec_question() == old(self).spec_question(),
            final(self).spec_options() == old(self).spec_options(),
            final(self).spec_selected() == match old(self).spec_selected() {
                Some(i) => if i + 1 < old(self).spec_options().len() {
                    Some((i + 1) as usize)
                } else {
                    Some((old(self).spec_options().len() - 1) as usize)
                },
                None => if old(self).spec_options().len() > 0 {
                    Some(0usize)
                } else {
                    None::<usize>
                },
            },
    {
        match self.selected {
            Some(index) => {
                let last = self.options.len() - 1;
                if index < last {
                    self.selected = Some(index + 1);
                } else {
                    self.selected = Some(last);
                }
            },
            None => {
                if self.options.len() > 0 {
                    self.selected = Some(0);
                }
            },
        }
    }

    /// Moves the option cursor one step up, clamping at the first
    /// option; an unset cursor lands on the first option of a
    /// non-empty list.
    pub fn move_selector_up(&mut self)
        requires
            old(self).wf(),
        ensures
            final(self).wf(),
            final(self).spec_question() == old(self).spec_question(),
            final(self).spec_options() == old(self).spec_options(),
            final(self).spec_selected() == match old(self).spec_selected() {
                Some(i) => if i > 0 {
                    Some((i - 1) as usize)
                } else {
                    Some(0usize)
                },
                None => if old(self).spec_options().len() > 0 {
                    Some(0usize)
                } else {
                    None::<usize>
                },
            },
    {
        match self.selected {
            Some(index) => {
                if index > 0 {
                    self.selected = Some(index - 1);
                } else {
                    self.selected = Some(0);
                }
            },
            None => {
                if self.options.len() > 0 {
                    self.selected = Some(0);
                }
            },
        }
    }
}

/// An informational prompt that only waits to be acknowledged.
pub struct ConfirmationPopup {
    pub title: String,
    pub message: String,
}

impl ConfirmationPopup {
    /// A prompt with the given title and message.
    pub fn new(title: String, message: String) -> (r: ConfirmationPopup)
        ensures
            r.title@ == title@,
            r.message@ == message@,
    {
        ConfirmationPopup { title, message }
    }
}

/// The text-entry state of an input popup: what the operator has typed,
/// and whether only digits are accepted.
pub struct PopupInput {
    pub content: String,
    pub nbrs_only: bool,
}

impl PopupInput {
    /// An empty input field.
    pub fn new(nbrs_only: bool) -> (r: PopupInput)
        ensures
            r.content@ == Seq::<char>::empty(),
            r.nbrs_only == nbrs_only,
    {
        PopupInput { content: String::new(), nbrs_only }
    }
}

/// A free-form question: a title, a message, and the text-entry state.
pub struct InputPopup {
    pub title: String,
    pub message: String,
    pub input: PopupInput,
}

impl InputPopup {
    /// A fresh input prompt with nothing typed yet.
    pub fn new(title: String, message: String, numbers_only: bool) -> (r: InputPopup)
        ensures
            r.title@ == title@,
            r.message@ == message@,
            r.input.content@ == Seq::<char>::empty(),
            r.input.nbrs_only == numbers_only,
    {
        InputPopup { title, message, input: PopupInput::new(numbers_only) }
    }
}

/// The fixed key hints shown while a popup is open.
pub struct PopupCommands {}

impl PopupCommands {
    /// The hint widget has no state.
    pub fn new() -> PopupCommands {
        PopupCommands {  }
    }
}

} // verus!
