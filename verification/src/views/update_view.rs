//! UpdateView result type and builder: the item before and after an update,
//! the changed fields, dry-run mode, validation errors and status messages.

use vstd::prelude::*;

use super::create_view::{appends_validation_error, ValidationError};
use super::message::{appends_message, Message, MessageLevel};

verus! {

/// Result type for update view handlers.
#[derive(Debug, Clone)]
pub struct UpdateViewResult<T> {
    /// The item state before the update (for diff display).
    pub before: Option<T>,
    /// The item state after the update.
    pub after: T,
    /// List of field names that were changed.
    pub changed_fields: Vec<String>,
    /// Whether this was a dry-run (no actual update).
    pub dry_run: bool,
    /// Validation errors that occurred.
    pub validation_errors: Vec<ValidationError>,
    /// Status messages (info, warning, error).
    pub messages: Vec<Message>,
}

/// The names a sequence of strings spells, as character sequences.
pub open spec fn field_names(fields: Seq<String>) -> Seq<Seq<char>> {
    fields.map_values(|f: String| f@)
}

impl<T> UpdateViewResult<T> {
    /// Create a new update view result with just the after state.
    pub fn new(after: T) -> (r: Self)
        ensures
            r.before is None,
            r.after == after,
            r.changed_fields@.len() == 0,
            !r.dry_run,
            r.validation_errors@.len() == 0,
            r.messages@.len() == 0,
    {
        UpdateViewResult {
            before: None,
            after,
            changed_fields: Vec::new(),
            dry_run: false,
            validation_errors: Vec::new(),
            messages: Vec::new(),
        }
    }

    /// Returns true if this was a dry-run.
    pub fn is_dry_run(&self) -> (b: bool)
        ensures
            b == self.dry_run,
    {
        self.dry_run
    }

    /// Returns true if there are validation errors.
    pub fn has_validation_errors(&self) -> (b: bool)
        ensures
            b == (self.validation_errors@.len() > 0),
    {
        self.validation_errors.len() > 0
    }

    /// Returns true if the update was valid (no validation errors).
    pub fn is_valid(&self) -> (b: bool)
        ensures
            b == (self.validation_errors@.len() == 0),
    {
        self.validation_errors.len() == 0
    }

    /// Returns true if any fields were changed.
    pub fn has_changes(&self) -> (b: bool)
        ensures
            b == (self.changed_fields@.len() > 0),
    {
        self.changed_fields.len() > 0
    }

    /// Returns true if the before state is available.
    pub fn has_before(&self) -> (b: bool)
        ensures
            b == (self.before is Some),
    {
        self.before.is_some()
    }
}

/// Builder for constructing `UpdateViewResult` instances.
///
/// Its view is the result that `build` hands back.
#[derive(Debug)]
pub struct UpdateViewBuilder<T> {
    before: Option<T>,
    after: T,
    changed_fields: Vec<String>,
    dry_run: bool,
    validation_errors: Vec<ValidationError>,
    messages: Vec<Message>,
}

impl<T> View for UpdateViewBuilder<T> {
    type V = UpdateViewResult<T>;

    closed spec fn view(&self) -> UpdateViewResult<T> {
        UpdateViewResult {
            before: self.before,
            after: self.after,
            changed_fields: self.changed_fields,
            dry_run: self.dry_run,
            validation_errors: self.validation_errors,
            messages: self.messages,
        }
    }
}

impl<T> UpdateViewBuilder<T> {
    /// Create a new builder with the after state.
    pub fn new(after: T) -> (b: Self)
        ensures
            b@.before is None,
            b@.after == after,
            b@.changed_fields@.len() == 0,
            !b@.dry_run,
            b@.validation_errors@.len() == 0,
            b@.messages@.len() == 0,
    {
        UpdateViewBuilder {
            before: None,
            after,
            changed_fields: Vec::new(),
            dry_run: false,
            validation_errors: Vec::new(),
            messages: Vec::new(),
        }
    }

    /// Set the before state for diff display.
    pub fn before(self, before: T) -> (b: Self)
        ensures
            b@ == (UpdateViewResult { before: Some(before), ..self@ }),
    {
        let mut b = self;
        b.before = Some(before);
        b
    }

    /// Add a changed field name.
    pub fn changed_field(self, field: &str) -> (b: Self)
        ensures
            b@ == (UpdateViewResult { changed_fields: b@.changed_fields, ..self@ }),
            field_names(b@.changed_fields@) == field_names(self@.changed_fields@).push(field@),
    {
        let mut b = self;
        b.changed_fields.push(field.to_string());
        proof {
            assert(field_names(b.changed_fields@) =~= field_names(self.changed_fields@).push(field@));
        }
        b
    }

    /// Add multiple changed field names, in the order given.
    pub fn changed_fields<const N: usize>(self, fields: [&str; N]) -> (b: Self)
        ensures
            b@ == (UpdateViewResult { changed_fields: b@.changed_fields, ..self@ }),
            field_names(b@.changed_fields@) == field_names(self@.changed_fields@)
                + fields@.map_values(|f: &str| f@),
    {
        let mut b = self;
        let mut i: usize = 0;
        while i < N
            invariant
                i <= N,
                N == fields@.len(),
                b@ == (UpdateViewResult { changed_fields: b@.changed_fields, ..self@ }),
                field_names(b@.changed_fields@) == field_names(self@.changed_fields@)
                    + fields@.take(i as int).map_values(|f: &str| f@),
            decreases N - i,
        {
            let ghost prev = b.changed_fields@;
            b.changed_fields.push(fields[i].to_string());
            proof {
                assert(fields@.take(i + 1) =~= fields@.take(i as int).push(fields@[i as int]));
                assert(field_names(b.changed_fields@) =~= field_names(prev).push(fields@[i as int]@));
                assert(field_names(self.changed_fields@) + fields@.take(i + 1).map_values(|f: &str| f@)
                    =~= (field_names(self.changed_fields@) + fields@.take(i as int).map_values(|f: &str| f@)).push(fields@[i as int]@));
            }
            i = i + 1;
        }
        proof {
            assert(fields@.take(N as int) =~= fields@);
        }
        b
    }

    /// Mark this as a dry-run (no actual update performed).
    pub fn dry_run(self) -> (b: Self)
        ensures
            b@ == (UpdateViewResult { dry_run: true, ..self@ }),
    {
        let mut b = self;
        b.dry_run = true;
        b
    }

    /// Add a validation error.
    pub fn validation_error(self, field: &str, message: &str) -> (b: Self)
        ensures
            b@ == (UpdateViewResult { validation_errors: b@.validation_errors, ..self@ }),
            appends_validation_error(self@.validation_errors@, b@.validation_errors@, field@, message@),
    {
        let mut b = self;
        b.validation_errors.push(ValidationError::new(field, message));
        proof {
            assert(b.validation_errors@.take(self.validation_errors@.len() as int)
                =~= self.validation_errors@);
        }
        b
    }

    /// Add multiple validation errors.
    pub fn validation_errors(self, errors: Vec<ValidationError>) -> (b: Self)
        ensures
            b@ == (UpdateViewResult { validation_errors: b@.validation_errors, ..self@ }),
            b@.validation_errors@ == self@.validation_errors@ + errors@,
    {
        let mut b = self;
        let mut errors = errors;
        b.validation_errors.append(&mut errors);
        b
    }

    /// Add a status message.
    pub fn message(self, level: MessageLevel, text: &str) -> (b: Self)
        ensures
            b@.before == self@.before,
            b@.after == self@.after,
            b@.changed_fields == self@.changed_fields,
            b@.dry_run == self@.dry_run,
            b@.validation_errors == self@.validation_errors,
            appends_message(self@.messages@, b@.messages@, level, text@),
    {
        let mut b = self;
        b.messages.push(Message::new(level, text));
        proof {
            assert(b.messages@.take(self.messages@.len() as int) =~= self.messages@);
        }
        b
    }

    /// Add an info message.
    pub fn info(self, text: &str) -> (b: Self)
        ensures
            b@.before == self@.before,
            b@.after == self@.after,
            b@.changed_fields == self@.changed_fields,
            b@.dry_run == self@.dry_run,
            b@.validation_errors == self@.validation_errors,
            appends_message(self@.messages@, b@.messages@, MessageLevel::Info, text@),
    {
        self.message(MessageLevel::Info, text)
    }

    /// Add a success message.
    pub fn success(self, text: &str) -> (b: Self)
        ensures
            b@.before == self@.before,
            b@.after == self@.after,
            b@.changed_fields == self@.changed_fields,
            b@.dry_run == self@.dry_run,
            b@.validation_errors == self@.validation_errors,
            appends_message(self@.messages@, b@.messages@, MessageLevel::Success, text@),
    {
        self.message(MessageLevel::Success, text)
    }

    /// Add a warning message.
    pub fn warning(self, text: &str) -> (b: Self)
        ensures
            b@.before == self@.before,
            b@.after == self@.after,
            b@.changed_fields == self@.changed_fields,
            b@.dry_run == self@.dry_run,
            b@.validation_errors == self@.validation_errors,
            appends_message(self@.messages@, b@.messages@, MessageLevel::Warning, text@),
    {
        self.message(MessageLevel::Warning, text)
    }

    /// Add an error message.
    pub fn error(self, text: &str) -> (b: Self)
        ensures
            b@.before == self@.before,
            b@.after == self@.after,
            b@.changed_fields == self@.changed_fields,
            b@.dry_run == self@.dry_run,
            b@.validation_errors == self@.validation_errors,
            appends_message(self@.messages@, b@.messages@, MessageLevel::Error, text@),
    {
        self.message(MessageLevel::Error, text)
    }
    /// Build the `UpdateViewResult`.
    pub fn build(self) -> (r: UpdateViewResult<T>)
        ensures
            r == self@,
    {
        UpdateViewResult {
            before: self.before,
            after: self.after,
            changed_fields: self.changed_fields,
            dry_run: self.dry_run,
            validation_errors: self.validation_errors,
            messages: self.messages,
        }
    }
}

/// Create a new update view builder with the after state.
pub fn update_view<T>(after: T) -> (b: UpdateViewBuilder<T>)
    ensures
        b@.before is None,
        b@.after == after,
        b@.changed_fields@.len() == 0,
        !b@.dry_run,
        b@.validation_errors@.len() == 0,
        b@.messages@.len() == 0,
{
    UpdateViewBuilder::new(after)
}

} // verus!
