//! ListView result type and builder: introduction text, the items, ending
//! text, status messages, and the "showing X of Y" and filter facts.

use vstd::prelude::*;

use super::message::{appends_message, Message, MessageLevel};

verus! {

/// Result type for list view handlers.
///
/// `tabular_spec` is the serialized tabular specification the list template
/// renders items with; the view carries it unread.
#[derive(Debug, Clone)]
pub struct ListViewResult<T> {
    /// Items to display (post-filtering, post-ordering).
    pub items: Vec<T>,
    /// Text shown before the list (optional header).
    pub intro: Option<String>,
    /// Text shown after the list (optional footer).
    pub ending: Option<String>,
    /// Status messages (info, warning, error).
    pub messages: Vec<Message>,
    /// Total count before limit/offset (for "showing X of Y").
    pub total_count: Option<usize>,
    /// Applied filters summary (for "filtered by: ...").
    pub filter_summary: Option<String>,
    /// Tabular specification for rendering, in its serialized form.
    pub tabular_spec: Option<serde_json::Value>,
}

/// An optional string holds exactly `text`.
pub open spec fn holds_text(value: Option<String>, text: Seq<char>) -> bool {
    value is Some && value->0@ == text
}

impl<T> ListViewResult<T> {
    /// Create a new list view result with just items.
    pub fn new(items: Vec<T>) -> (r: Self)
        ensures
            r.items@ == items@,
            r.intro is None,
            r.ending is None,
            r.messages@.len() == 0,
            r.total_count is None,
            r.filter_summary is None,
            r.tabular_spec is None,
    {
        ListViewResult {
            items,
            intro: None,
            ending: None,
            messages: Vec::new(),
            total_count: None,
            filter_summary: None,
            tabular_spec: None,
        }
    }

    /// Returns true if the item list is empty.
    pub fn is_empty(&self) -> (b: bool)
        ensures
            b == (self.items@.len() == 0),
    {
        self.items.len() == 0
    }

    /// Returns the number of items.
    pub fn len(&self) -> (n: usize)
        ensures
            n == self.items@.len(),
    {
        self.items.len()
    }
}

impl<T> Default for ListViewResult<T> {
    /// An empty list with no header, footer, messages or counts.
    fn default() -> (r: Self)
        ensures
            r.items@.len() == 0,
            r.intro is None,
            r.ending is None,
            r.messages@.len() == 0,
            r.total_count is None,
            r.filter_summary is None,
            r.tabular_spec is None,
    {
        Self::new(Vec::new())
    }
}

/// Builder for constructing `ListViewResult` instances.
///
/// Its view is the result that `build` hands back.
#[derive(Debug)]
pub struct ListViewBuilder<T> {
    items: Vec<T>,
    intro: Option<String>,
    ending: Option<String>,
    messages: Vec<Message>,
    total_count: Option<usize>,
    filter_summary: Option<String>,
    tabular_spec: Option<serde_json::Value>,
}

impl<T> View for ListViewBuilder<T> {
    type V = ListViewResult<T>;

    closed spec fn view(&self) -> ListViewResult<T> {
        ListViewResult {
            items: self.items,
            intro: self.intro,
            ending: self.ending,
            messages: self.messages,
            total_count: self.total_count,
            filter_summary: self.filter_summary,
            tabular_spec: self.tabular_spec,
        }
    }
}

impl<T> ListViewBuilder<T> {
    /// Create a new builder with the given items.
    pub fn new(items: Vec<T>) -> (b: Self)
        ensures
            b@.items@ == items@,
            b@.intro is None,
            b@.ending is None,
            b@.messages@.len() == 0,
            b@.total_count is None,
            b@.filter_summary is None,
            b@.tabular_spec is None,
    {
        ListViewBuilder {
            items,
            intro: None,
            ending: None,
            messages: Vec::new(),
            total_count: None,
            filter_summary: None,
            tabular_spec: None,
        }
    }

    /// Set the introduction text shown before the list.
    pub fn intro(self, text: &str) -> (b: Self)
        ensures
            b@ == (ListViewResult { intro: b@.intro, ..self@ }),
            holds_text(b@.intro, text@),
    {
        let mut b = self;
        b.intro = Some(text.to_string());
        b
    }

    /// Set the ending text shown after the list.
    pub fn ending(self, text: &str) -> (b: Self)
        ensures
            b@ == (ListViewResult { ending: b@.ending, ..self@ }),
            holds_text(b@.ending, text@),
    {
        let mut b = self;
        b.ending = Some(text.to_string());
        b
    }

    /// Add a status message.
    pub fn message(self, level: MessageLevel, text: &str) -> (b: Self)
        ensures
            b@.items == self@.items,
            b@.intro == self@.intro,
            b@.ending == self@.ending,
            b@.total_count == self@.total_count,
            b@.filter_summary == self@.filter_summary,
            b@.tabular_spec == self@.tabular_spec,
            appends_message(self@.messages@, b@.messages@, level, text@),
    {
        let mut b = self;
        b.messages.push(Message::new(level, text));
        proof {
            assert(b.messages@.take(self.messages@.len() as int) =~= self.messages@);
        }
        b
    }

    /// Add an info message.
    pub fn info(self, text: &str) -> (b: Self)
        ensures
            b@.items == self@.items,
            b@.intro == self@.intro,
            b@.ending == self@.ending,
            b@.total_count == self@.total_count,
            b@.filter_summary == self@.filter_summary,
            b@.tabular_spec == self@.tabular_spec,
            appends_message(self@.messages@, b@.messages@, MessageLevel::Info, text@),
    {
        self.message(MessageLevel::Info, text)
    }

    /// Add a success message.
    pub fn success(self, text: &str) -> (b: Self)
        ensures
            b@.items == self@.items,
            b@.intro == self@.intro,
            b@.ending == self@.ending,
            b@.total_count == self@.total_count,
            b@.filter_summary == self@.filter_summary,
            b@.tabular_spec == self@.tabular_spec,
            appends_message(self@.messages@, b@.messages@, MessageLevel::Success, text@),
    {
        self.message(MessageLevel::Success, text)
    }

    /// Add a warning message.
    pub fn warning(self, text: &str) -> (b: Self)
        ensures
            b@.items == self@.items,
            b@.intro == self@.intro,
            b@.ending == self@.ending,
            b@.total_count == self@.total_count,
            b@.filter_summary == self@.filter_summary,
            b@.tabular_spec == self@.tabular_spec,
            appends_message(self@.messages@, b@.messages@, MessageLevel::Warning, text@),
    {
        self.message(MessageLevel::Warning, text)
    }

    /// Add an error message.
    pub fn error(self, text: &str) -> (b: Self)
        ensures
            b@.items == self@.items,
            b@.intro == self@.intro,
            b@.ending == self@.ending,
            b@.total_count == self@.total_count,
            b@.filter_summary == self@.filter_summary,
            b@.tabular_spec == self@.tabular_spec,
            appends_message(self@.messages@, b@.messages@, MessageLevel::Error, text@),
    {
        self.message(MessageLevel::Error, text)
    }
    /// Set the total count (before filtering/limiting).
    pub fn total_count(self, count: usize) -> (b: Self)
        ensures
            b@ == (ListViewResult { total_count: Some(count), ..self@ }),
    {
        let mut b = self;
        b.total_count = Some(count);
        b
    }

    /// Set the filter summary text.
    pub fn filter_summary(self, summary: &str) -> (b: Self)
        ensures
            b@ == (ListViewResult { filter_summary: b@.filter_summary, ..self@ }),
            holds_text(b@.filter_summary, summary@),
    {
        let mut b = self;
        b.filter_summary = Some(summary.to_string());
        b
    }

    /// Set the tabular specification, in its serialized form.
    pub fn tabular_spec(self, spec: serde_json::Value) -> (b: Self)
        ensures
            b@ == (ListViewResult { tabular_spec: Some(spec), ..self@ }),
    {
        let mut b = self;
        b.tabular_spec = Some(spec);
        b
    }

    /// Build the `ListViewResult`.
    pub fn build(self) -> (r: ListViewResult<T>)
        ensures
            r == self@,
    {
        ListViewResult {
            items: self.items,
            intro: self.intro,
            ending: self.ending,
            messages: self.messages,
            total_count: self.total_count,
            filter_summary: self.filter_summary,
            tabular_spec: self.tabular_spec,
        }
    }
}

/// Create a new list view builder with the given items.
pub fn list_view<T>(items: Vec<T>) -> (b: ListViewBuilder<T>)
    ensures
        b@.items@ == items@,
        b@.intro is None,
        b@.ending is None,
        b@.messages@.len() == 0,
        b@.total_count is None,
        b@.filter_summary is None,
        b@.tabular_spec is None,
{
    ListViewBuilder::new(items)
}

} // verus!
