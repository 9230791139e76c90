//! CreateView result type and builder: the newly created item, dry-run mode,
//! validation errors and status messages.

use vstd::prelude::*;

use super::message::{appends_message, Message, MessageLevel};

verus! {

/// A validation error for a specific field.
#[derive(Debug, Clone, PartialEq, Eq)]
pub struct ValidationError {
    /// The field that failed validation (e.g., "title", "email").
    pub field: String,
    /// The error message describing the validation failure.
    pub message: String,
}

impl ValidationError {
    /// Create a new validation error.
    pub fn new(field: &str, message: &str) -> (e: Self)
        ensures
            e.field@ == field@,
            e.message@ == message@,
    {
        ValidationError { field: field.to_string(), message: message.to_string() }
    }
}

/// `after` is `before` with one more validation error at its end, for `field` with `message`.
pub open spec fn appends_validation_error(
    before: Seq<ValidationError>,
    after: Seq<ValidationError>,
    field: Seq<char>,
    message: Seq<char>,
) -> bool {
    &&& after.len() == before.len() + 1
    &&& after.take(before.len() as int) == before
    &&& after.last().field@ == field
    &&& after.last().message@ == message
}

/// Result type for create view handlers.
#[derive(Debug, Clone)]
pub struct CreateViewResult<T> {
    /// The newly created item.
    pub item: T,
    /// Whether this was a dry-run (no actual creation).
    pub dry_run: bool,
    /// Validation errors that occurred.
    pub validation_errors: Vec<ValidationError>,
    /// Status messages (info, warning, error).
    pub messages: Vec<Message>,
}

impl<T> CreateViewResult<T> {
    /// Create a new create view result with just the item.
    pub fn new(item: T) -> (r: Self)
        ensures
            r.item == item,
            !r.dry_run,
            r.validation_errors@.len() == 0,
            r.messages@.len() == 0,
    {
        CreateViewResult { item, dry_run: false, validation_errors: Vec::new(), messages: Vec::new() }
    }

    /// Returns true if this was a dry-run.
    pub fn is_dry_run(&self) -> (b: bool)
        ensures
            b == self.dry_run,
    {
        self.dry_run
    }

    /// Returns true if there are validation errors.
    pub fn has_validation_errors(&self) -> (b: bool)
        ensures
            b == (self.validation_errors@.len() > 0),
    {
        self.validation_errors.len() > 0
    }

    /// Returns true if the creation was successful (no validation errors).
    pub fn is_valid(&self) -> (b: bool)
        ensures
            b == (self.validation_errors@.len() == 0),
    {
        self.validation_errors.len() == 0
    }
}

/// Builder for constructing `CreateViewResult` instances.
///
/// Its view is the result that `build` hands back.
#[derive(Debug)]
pub struct CreateViewBuilder<T> {
    item: T,
    dry_run: bool,
    validation_errors: Vec<ValidationError>,
    messages: Vec<Message>,
}

impl<T> View for CreateViewBuilder<T> {
    type V = CreateViewResult<T>;

    closed spec fn view(&self) -> CreateViewResult<T> {
        CreateViewResult {
            item: self.item,
            dry_run: self.dry_run,
            validation_errors: self.validation_errors,
            messages: self.messages,
        }
    }
}

impl<T> CreateViewBuilder<T> {
    /// Create a new builder with the given item.
    pub fn new(item: T) -> (b: Self)
        ensures
            b@.item == item,
            !b@.dry_run,
            b@.validation_errors@.len() == 0,
            b@.messages@.len() == 0,
    {
        CreateViewBuilder { item, dry_run: false, validation_errors: Vec::new(), messages: Vec::new() }
    }

    /// Mark this as a dry-run (no actual creation performed).
    pub fn dry_run(self) -> (b: Self)
        ensures
            b@ == (CreateViewResult { dry_run: true, ..self@ }),
    {
        let mut b = self;
        b.dry_run = true;
        b
    }

    /// Add a validation error.
    pub fn validation_error(self, field: &str, message: &str) -> (b: Self)
        ensures
            b@.item == self@.item,
            b@.dry_run == self@.dry_run,
            b@.messages == self@.messages,
            appends_validation_error(self@.validation_errors@, b@.validation_errors@, field@, message@),
    {
        let mut b = self;
        b.validation_errors.push(ValidationError::new(field, message));
        proof {
            assert(b.validation_errors@.take(self.validation_errors@.len() as int)
                =~= self.validation_errors@);
        }
        b
    }

    /// Add multiple validation errors.
    pub fn validation_errors(self, errors: Vec<ValidationError>) -> (b: Self)
        ensures
            b@ == (CreateViewResult {
                validation_errors: b@.validation_errors,
                ..self@
            }),
            b@.validation_errors@ == self@.validation_errors@ + errors@,
    {
        let mut b = self;
        let mut errors = errors;
        b.validation_errors.append(&mut errors);
        b
    }

    /// Add a status message.
    pub fn message(self, level: MessageLevel, text: &str) -> (b: Self)
        ensures
            b@.item == self@.item,
            b@.dry_run == self@.dry_run,
            b@.validation_errors == self@.validation_errors,
            appends_message(self@.messages@, b@.messages@, level, text@),
    {
        let mut b = self;
        b.messages.push(Message::new(level, text));
        proof {
            assert(b.messages@.take(self.messages@.len() as int) =~= self.messages@);
        }
        b
    }

    /// Add an info message.
    pub fn info(self, text: &str) -> (b: Self)
        ensures
            b@.item == self@.item,
            b@.dry_run == self@.dry_run,
            b@.validation_errors == self@.validation_errors,
            appends_message(self@.messages@, b@.messages@, MessageLevel::Info, text@),
    {
        self.message(MessageLevel::Info, text)
    }

    /// Add a success message.
    pub fn success(self, text: &str) -> (b: Self)
        ensures
            b@.item == self@.item,
            b@.dry_run == self@.dry_run,
            b@.validation_errors == self@.validation_errors,
            appends_message(self@.messages@, b@.messages@, MessageLevel::Success, text@),
    {
        self.message(MessageLevel::Success, text)
    }

    /// Add a warning message.
    pub fn warning(self, text: &str) -> (b: Self)
        ensures
            b@.item == self@.item,
            b@.dry_run == self@.dry_run,
            b@.validation_errors == self@.validation_errors,
            appends_message(self@.messages@, b@.messages@, MessageLevel::Warning, text@),
    {
        self.message(MessageLevel::Warning, text)
    }

    /// Add an error message.
    pub fn error(self, text: &str) -> (b: Self)
        ensures
            b@.item == self@.item,
            b@.dry_run == self@.dry_run,
            b@.validation_errors == self@.validation_errors,
            appends_message(self@.messages@, b@.messages@, MessageLevel::Error, text@),
    {
        self.message(MessageLevel::Error, text)
    }

    /// Build the `CreateViewResult`.
    pub fn build(self) -> (r: CreateViewResult<T>)
        ensures
            r == self@,
    {
        CreateViewResult {
            item: self.item,
            dry_run: self.dry_run,
            validation_errors: self.validation_errors,
            messages: self.messages,
        }
    }
}

/// Create a new create view builder with the given item.
pub fn create_view<T>(item: T) -> (b: CreateViewBuilder<T>)
    ensures
        b@.item == item,
        !b@.dry_run,
        b@.validation_errors@.len() == 0,
        b@.messages@.len() == 0,
{
    CreateViewBuilder::new(item)
}

} // verus!
