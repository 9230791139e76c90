//! DeleteView result type and builder: the deleted item, its confirmation,
//! soft-delete indication, an undo command and status messages.

use vstd::prelude::*;

use super::message::{appends_message, Message, MessageLevel};

verus! {

/// Result type for delete view handlers.
#[derive(Debug, Clone)]
pub struct DeleteViewResult<T> {
    /// The deleted item (for display/confirmation).
    pub item: T,
    /// Whether the deletion was confirmed.
    pub confirmed: bool,
    /// Whether this was a soft-delete (item still recoverable).
    pub soft_deleted: bool,
    /// Command to undo the deletion (if available).
    pub undo_command: Option<String>,
    /// Status messages (info, warning, error).
    pub messages: Vec<Message>,
}

impl<T> DeleteViewResult<T> {
    /// Create a new delete view result with just the item.
    pub fn new(item: T) -> (r: Self)
        ensures
            r.item == item,
            !r.confirmed,
            !r.soft_deleted,
            r.undo_command is None,
            r.messages@.len() == 0,
    {
        DeleteViewResult { item, confirmed: false, soft_deleted: false, undo_command: None, messages: Vec::new() }
    }

    /// Returns true if the deletion was confirmed.
    pub fn is_confirmed(&self) -> (b: bool)
        ensures
            b == self.confirmed,
    {
        self.confirmed
    }

    /// Returns true if this was a soft-delete.
    pub fn is_soft_deleted(&self) -> (b: bool)
        ensures
            b == self.soft_deleted,
    {
        self.soft_deleted
    }

    /// Returns true if an undo command is available.
    pub fn has_undo(&self) -> (b: bool)
        ensures
            b == (self.undo_command is Some),
    {
        self.undo_command.is_some()
    }
}

/// Builder for constructing `DeleteViewResult` instances.
///
/// Its view is the result that `build` hands back.
#[derive(Debug)]
pub struct DeleteViewBuilder<T> {
    item: T,
    confirmed: bool,
    soft_deleted: bool,
    undo_command: Option<String>,
    messages: Vec<Message>,
}

impl<T> View for DeleteViewBuilder<T> {
    type V = DeleteViewResult<T>;

    closed spec fn view(&self) -> DeleteViewResult<T> {
        DeleteViewResult {
            item: self.item,
            confirmed: self.confirmed,
            soft_deleted: self.soft_deleted,
            undo_command: self.undo_command,
            messages: self.messages,
        }
    }
}

impl<T> DeleteViewBuilder<T> {
    /// Create a new builder with the given item.
    pub fn new(item: T) -> (b: Self)
        ensures
            b@.item == item,
            !b@.confirmed,
            !b@.soft_deleted,
            b@.undo_command is None,
            b@.messages@.len() == 0,
    {
        DeleteViewBuilder { item, confirmed: false, soft_deleted: false, undo_command: None, messages: Vec::new() }
    }

    /// Mark the deletion as confirmed.
    pub fn confirmed(self) -> (b: Self)
        ensures
            b@ == (DeleteViewResult { confirmed: true, ..self@ }),
    {
        let mut b = self;
        b.confirmed = true;
        b
    }

    /// Set the confirmation status explicitly.
    pub fn with_confirmed(self, confirmed: bool) -> (b: Self)
        ensures
            b@ == (DeleteViewResult { confirmed: confirmed, ..self@ }),
    {
        let mut b = self;
        b.confirmed = confirmed;
        b
    }

    /// Mark this as a soft-delete (item still recoverable).
    pub fn soft_deleted(self) -> (b: Self)
        ensures
            b@ == (DeleteViewResult { soft_deleted: true, ..self@ }),
    {
        let mut b = self;
        b.soft_deleted = true;
        b
    }

    /// Set the undo command.
    pub fn undo_command(self, command: &str) -> (b: Self)
        ensures
            b@ == (DeleteViewResult { undo_command: b@.undo_command, ..self@ }),
            b@.undo_command is Some,
            b@.undo_command->0@ == command@,
    {
        let mut b = self;
        b.undo_command = Some(command.to_string());
        b
    }

    /// Add a status message.
    pub fn message(self, level: MessageLevel, text: &str) -> (b: Self)
        ensures
            b@.item == self@.item,
            b@.confirmed == self@.confirmed,
            b@.soft_deleted == self@.soft_deleted,
            b@.undo_command == self@.undo_command,
            appends_message(self@.messages@, b@.messages@, level, text@),
    {
        let mut b = self;
        b.messages.push(Message::new(level, text));
        proof {
            assert(b.messages@.take(self.messages@.len() as int) =~= self.messages@);
        }
        b
    }

    /// Add an info message.
    pub fn info(self, text: &str) -> (b: Self)
        ensures
            b@.item == self@.item,
            b@.confirmed == self@.confirmed,
            b@.soft_deleted == self@.soft_deleted,
            b@.undo_command == self@.undo_command,
            appends_message(self@.messages@, b@.messages@, MessageLevel::Info, text@),
    {
        self.message(MessageLevel::Info, text)
    }

    /// Add a success message.
    pub fn success(self, text: &str) -> (b: Self)
        ensures
            b@.item == self@.item,
            b@.confirmed == self@.confirmed,
            b@.soft_deleted == self@.soft_deleted,
            b@.undo_command == self@.undo_command,
            appends_message(self@.messages@, b@.messages@, MessageLevel::Success, text@),
    {
        self.message(MessageLevel::Success, text)
    }

    /// Add a warning message.
    pub fn warning(self, text: &str) -> (b: Self)
        ensures
            b@.item == self@.item,
            b@.confirmed == self@.confirmed,
            b@.soft_deleted == self@.soft_deleted,
            b@.undo_command == self@.undo_command,
            appends_message(self@.messages@, b@.messages@, MessageLevel::Warning, text@),
    {
        self.message(MessageLevel::Warning, text)
    }

    /// Add an error message.
    pub fn error(self, text: &str) -> (b: Self)
        ensures
            b@.item == self@.item,
            b@.confirmed == self@.confirmed,
            b@.soft_deleted == self@.soft_deleted,
            b@.undo_command == self@.undo_command,
            appends_message(self@.messages@, b@.messages@, MessageLevel::Error, text@),
    {
        self.message(MessageLevel::Error, text)
    }
    /// Build the `DeleteViewResult`.
    pub fn build(self) -> (r: DeleteViewResult<T>)
        ensures
            r == self@,
    {
        DeleteViewResult {
            item: self.item,
            confirmed: self.confirmed,
            soft_deleted: self.soft_deleted,
            undo_command: self.undo_command,
            messages: self.messages,
        }
    }
}

/// Create a new delete view builder with the given item.
pub fn delete_view<T>(item: T) -> (b: DeleteViewBuilder<T>)
    ensures
        b@.item == item,
        !b@.confirmed,
        !b@.soft_deleted,
        b@.undo_command is None,
        b@.messages@.len() == 0,
{
    DeleteViewBuilder::new(item)
}

} // verus!
