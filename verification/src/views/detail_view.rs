//! DetailView result type and builder: one item with its title and subtitle,
//! related items keyed by relationship name, suggested actions and status
//! messages.

use vstd::prelude::*;

use super::list_view::holds_text;
use super::message::{appends_message, Message, MessageLevel};

verus! {

/// A suggested action that can be taken on the displayed item.
#[derive(Debug, Clone, PartialEq, Eq)]
pub struct ActionSuggestion {
    /// Display label for the action (e.g., "Edit", "Delete")
    pub label: String,
    /// Command to execute (e.g., "task update task-1")
    pub command: String,
}

impl ActionSuggestion {
    /// Create a new action suggestion.
    pub fn new(label: &str, command: &str) -> (a: Self)
        ensures
            a.label@ == label@,
            a.command@ == command@,
    {
        ActionSuggestion { label: label.to_string(), command: command.to_string() }
    }
}

/// No relationship name occurs twice.
pub open spec fn names_distinct(related: Seq<(String, serde_json::Value)>) -> bool {
    forall|i: int, j: int|
        0 <= i < j < related.len() ==> #[trigger] related[i].0@ != #[trigger] related[j].0@
}

/// The related items as a map from relationship name to value.
pub open spec fn related_map(related: Seq<(String, serde_json::Value)>) -> Map<Seq<char>, serde_json::Value>
    decreases related.len(),
{
    if related.len() == 0 {
        Map::empty()
    } else {
        related_map(related.drop_last()).insert(related.last().0@, related.last().1)
    }
}

/// Result type for detail view handlers.
#[derive(Debug, Clone)]
pub struct DetailViewResult<T> {
    /// The item to display.
    pub item: T,
    /// Optional title for the view header.
    pub title: Option<String>,
    /// Optional subtitle (e.g., item ID or type).
    pub subtitle: Option<String>,
    /// Related items keyed by relationship name, each name once.
    pub related: Vec<(String, serde_json::Value)>,
    /// Suggested actions for this item.
    pub actions: Vec<ActionSuggestion>,
    /// Status messages (info, warning, error).
    pub messages: Vec<Message>,
}

impl<T> DetailViewResult<T> {
    /// Create a new detail view result with just the item.
    pub fn new(item: T) -> (r: Self)
        ensures
            r.item == item,
            r.title is None,
            r.subtitle is None,
            r.related@.len() == 0,
            r.actions@.len() == 0,
            r.messages@.len() == 0,
    {
        DetailViewResult {
            item,
            title: None,
            subtitle: None,
            related: Vec::new(),
            actions: Vec::new(),
            messages: Vec::new(),
        }
    }

    /// Returns true if there are any suggested actions.
    pub fn has_actions(&self) -> (b: bool)
        ensures
            b == (self.actions@.len() > 0),
    {
        self.actions.len() > 0
    }

    /// Returns true if there are any related items.
    pub fn has_related(&self) -> (b: bool)
        ensures
            b == (self.related@.len() > 0),
    {
        self.related.len() > 0
    }
}

/// Builder for constructing `DetailViewResult` instances.
///
/// Its view is the result that `build` hands back.
#[derive(Debug)]
pub struct DetailViewBuilder<T> {
    item: T,
    title: Option<String>,
    subtitle: Option<String>,
    related: Vec<(String, serde_json::Value)>,
    actions: Vec<ActionSuggestion>,
    messages: Vec<Message>,
}

impl<T> View for DetailViewBuilder<T> {
    type V = DetailViewResult<T>;

    closed spec fn view(&self) -> DetailViewResult<T> {
        DetailViewResult {
            item: self.item,
            title: self.title,
            subtitle: self.subtitle,
            related: self.related,
            actions: self.actions,
            messages: self.messages,
        }
    }
}

/// Where `name` stands among the relationship names, if it does.
fn find_related(related: &Vec<(String, serde_json::Value)>, name: &String) -> (found: Option<usize>)
    ensures
        match found {
            Some(i) => i < related@.len() && related@[i as int].0@ == name@,
            None => forall|i: int| 0 <= i < related@.len() ==> related@[i].0@ != name@,
        },
{
    let mut i: usize = 0;
    while i < related.len()
        invariant
            i <= related@.len(),
            forall|k: int| 0 <= k < i ==> related@[k].0@ != name@,
        decreases related@.len() - i,
    {
        if related[i].0 == *name {
            return Some(i);
        }
        i = i + 1;
    }
    None
}

/// Replacing the entry at a name's position, under the same name, changes only
/// that name's value.
proof fn lemma_related_map_update(
    related: Seq<(String, serde_json::Value)>,
    i: int,
    key: String,
    value: serde_json::Value,
)
    requires
        names_distinct(related),
        0 <= i < related.len(),
        key@ == related[i].0@,
    ensures
        names_distinct(related.update(i, (key, value))),
        related_map(related.update(i, (key, value))) == related_map(related).insert(key@, value),
    decreases related.len(),
{
    let updated = related.update(i, (key, value));
    assert forall|a: int, b: int| 0 <= a < b < updated.len() implies
        #[trigger] updated[a].0@ != #[trigger] updated[b].0@ by {
        assert(related[a].0@ != related[b].0@);
    }
    if i == related.len() - 1 {
        assert(updated.drop_last() =~= related.drop_last());
        assert(related_map(updated) =~= related_map(related).insert(key@, value));
    } else {
        let prefix = related.drop_last();
        assert(names_distinct(prefix)) by {
            assert forall|a: int, b: int| 0 <= a < b < prefix.len() implies
                #[trigger] prefix[a].0@ != #[trigger] prefix[b].0@ by {
                assert(related[a].0@ != related[b].0@);
            }
        }
        lemma_related_map_update(prefix, i, key, value);
        assert(updated.drop_last() =~= prefix.update(i, (key, value)));
        assert(related.last().0@ != key@) by {
            assert(related[i].0@ != related[related.len() - 1].0@);
        }
        assert(related_map(updated) =~= related_map(related).insert(key@, value));
    }
}

impl<T> DetailViewBuilder<T> {
    #[verifier::type_invariant]
    spec fn related_names_distinct(self) -> bool {
        names_distinct(self.related@)
    }

    /// Create a new builder with the given item.
    pub fn new(item: T) -> (b: Self)
        ensures
            b@.item == item,
            b@.title is None,
            b@.subtitle is None,
            b@.related@.len() == 0,
            b@.actions@.len() == 0,
            b@.messages@.len() == 0,
    {
        DetailViewBuilder {
            item,
            title: None,
            subtitle: None,
            related: Vec::new(),
            actions: Vec::new(),
            messages: Vec::new(),
        }
    }

    /// Set the title shown in the view header.
    pub fn title(self, text: &str) -> (b: Self)
        ensures
            b@ == (DetailViewResult { title: b@.title, ..self@ }),
            holds_text(b@.title, text@),
    {
        proof { use_type_invariant(&self); }
        let DetailViewBuilder { item, title, subtitle, related, actions, messages } = self;
        let title = Some(text.to_string());
        DetailViewBuilder { item, title, subtitle, related, actions, messages }
    }

    /// Set the subtitle shown below the title.
    pub fn subtitle(self, text: &str) -> (b: Self)
        ensures
            b@ == (DetailViewResult { subtitle: b@.subtitle, ..self@ }),
            holds_text(b@.subtitle, text@),
    {
        proof { use_type_invariant(&self); }
        let DetailViewBuilder { item, title, subtitle, related, actions, messages } = self;
        let subtitle = Some(text.to_string());
        DetailViewBuilder { item, title, subtitle, related, actions, messages }
    }

    /// Add a related item under a relationship name, replacing the value an
    /// earlier call gave the same name.
    pub fn related(self, name: &str, value: serde_json::Value) -> (b: Self)
        ensures
            b@ == (DetailViewResult { related: b@.related, ..self@ }),
            names_distinct(b@.related@),
            related_map(b@.related@) == related_map(self@.related@).insert(name@, value),
    {
        proof { use_type_invariant(&self); }
        let DetailViewBuilder { item, title, subtitle, related, actions, messages } = self;
        let mut related = related;
        let key = name.to_string();
        match find_related(&related, &key) {
            Some(i) => {
                proof { lemma_related_map_update(related@, i as int, key, value); }
                related.set(i, (key, value));
            },
            None => {
                related.push((key, value));
                proof {
                    assert(related@.drop_last() =~= self.related@);
                }
            },
        }
        DetailViewBuilder { item, title, subtitle, related, actions, messages }
    }

    /// Add a suggested action.
    pub fn action(self, label: &str, command: &str) -> (b: Self)
        ensures
            b@ == (DetailViewResult { actions: b@.actions, ..self@ }),
            b@.actions@.len() == self@.actions@.len() + 1,
            b@.actions@.take(self@.actions@.len() as int) == self@.actions@,
            b@.actions@.last().label@ == label@,
            b@.actions@.last().command@ == command@,
    {
        proof { use_type_invariant(&self); }
        let DetailViewBuilder { item, title, subtitle, related, actions, messages } = self;
        let mut actions = actions;
        actions.push(ActionSuggestion::new(label, command));
        proof {
            assert(actions@.take(self.actions@.len() as int) =~= self.actions@);
        }
        DetailViewBuilder { item, title, subtitle, related, actions, messages }
    }

    /// Add a status message.
    pub fn message(self, level: MessageLevel, text: &str) -> (b: Self)
        ensures
            b@.item == self@.item,
            b@.title == self@.title,
            b@.subtitle == self@.subtitle,
            b@.related == self@.related,
            b@.actions == self@.actions,
            appends_message(self@.messages@, b@.messages@, level, text@),
    {
        proof { use_type_invariant(&self); }
        let DetailViewBuilder { item, title, subtitle, related, actions, messages } = self;
        let mut messages = messages;
        messages.push(Message::new(level, text));
        proof {
            assert(messages@.take(self.messages@.len() as int) =~= self.messages@);
        }
        DetailViewBuilder { item, title, subtitle, related, actions, messages }
    }

    /// Add an info message.
    pub fn info(self, text: &str) -> (b: Self)
        ensures
            b@.item == self@.item,
            b@.title == self@.title,
            b@.subtitle == self@.subtitle,
            b@.related == self@.related,
            b@.actions == self@.actions,
            appends_message(self@.messages@, b@.messages@, MessageLevel::Info, text@),
    {
        self.message(MessageLevel::Info, text)
    }

    /// Add a success message.
    pub fn success(self, text: &str) -> (b: Self)
        ensures
            b@.item == self@.item,
            b@.title == self@.title,
            b@.subtitle == self@.subtitle,
            b@.related == self@.related,
            b@.actions == self@.actions,
            appends_message(self@.messages@, b@.messages@, MessageLevel::Success, text@),
    {
        self.message(MessageLevel::Success, text)
    }

    /// Add a warning message.
    pub fn warning(self, text: &str) -> (b: Self)
        ensures
            b@.item == self@.item,
            b@.title == self@.title,
            b@.subtitle == self@.subtitle,
            b@.related == self@.related,
            b@.actions == self@.actions,
            appends_message(self@.messages@, b@.messages@, MessageLevel::Warning, text@),
    {
        self.message(MessageLevel::Warning, text)
    }

    /// Add an error message.
    pub fn error(self, text: &str) -> (b: Self)
        ensures
            b@.item == self@.item,
            b@.title == self@.title,
            b@.subtitle == self@.subtitle,
            b@.related == self@.related,
            b@.actions == self@.actions,
            appends_message(self@.messages@, b@.messages@, MessageLevel::Error, text@),
    {
        self.message(MessageLevel::Error, text)
    }
    /// Build the `DetailViewResult`.
    pub fn build(self) -> (r: DetailViewResult<T>)
        ensures
            r == self@,
            names_distinct(r.related@),
    {
        proof { use_type_invariant(&self); }
        DetailViewResult {
            item: self.item,
            title: self.title,
            subtitle: self.subtitle,
            related: self.related,
            actions: self.actions,
            messages: self.messages,
        }
    }
}

/// Create a new detail view builder with the given item.
pub fn detail_view<T>(item: T) -> (b: DetailViewBuilder<T>)
    ensures
        b@.item == item,
        b@.title is None,
        b@.subtitle is None,
        b@.related@.len() == 0,
        b@.actions@.len() == 0,
        b@.messages@.len() == 0,
{
    DetailViewBuilder::new(item)
}

} // verus!
