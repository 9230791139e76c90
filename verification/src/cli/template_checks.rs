//! Checking, before an application is built, that every command naming a
//! template finds it registered (and, for a command that renders events as
//! it runs, its event template too).

use vstd::prelude::*;

use crate::cli::templates::{
    missing_event_template_message, missing_template_message, missing_template_text, nearest_picks, quoted_all,
    TemplateCatalog, TemplateRef, TemplateRefreshError,
};
use crate::setup::SetupError;
use crate::text::concat;

verus! {

broadcast use vstd::string::group_string_axioms;

/// What the template registry answered for a name.
#[derive(Debug, Clone)]
pub enum TemplateLookup {
    /// The template is registered and readable.
    Found,
    /// No template is registered under the name.
    NotFound,
    /// The template is registered but could not be read: where it was
    /// found (`` at `path` `` for a file, empty otherwise) and why.
    Failed { location: String, message: String },
}

/// A registered command as the template check reads it.
#[derive(Debug, Clone)]
pub struct CommandTemplate {
    /// The command's path.
    pub path: String,
    /// The template it names.
    pub template: TemplateRef,
    /// Whether it renders events while it runs.
    pub emits_events: bool,
    /// What the registry answered for the template's name.
    pub lookup: TemplateLookup,
    /// What the registry answered for the event template's name
    /// (the name followed by `.event`).
    pub event_lookup: TemplateLookup,
}

/// The text of a template that could not be refreshed.
pub open spec fn refresh_text(name: Seq<char>, location: Seq<char>, message: Seq<char>) -> Seq<char> {
    if name.len() == 0 {
        message
    } else {
        "template `"@ + name + "`"@ + location + " could not be refreshed: "@ + message
    }
}

/// The text for an event template that is not registered.
pub open spec fn missing_event_text(path: Seq<char>, name: Seq<char>, event_name: Seq<char>) -> Seq<char> {
    "command `"@ + path + "` produces its result while it runs, so it renders each event from template `"@
        + event_name + "`, but that template is not registered; add it beside `"@ + name
        + "`, or drop the `Results` parameter if the command produces one batch value instead"@
}

/// `m` is the message for a template `name` that command `path` names and
/// nobody registered, suggesting the catalog's nearest names.
pub open spec fn is_missing_message(m: Seq<char>, path: Seq<char>, name: Seq<char>, catalog: Option<TemplateCatalog>) -> bool {
    exists|picked: Seq<Seq<char>>| {
        &&& match catalog {
            Some(c) => c.has_application_templates ==> nearest_picks(name, c.names@, picked),
            None => true,
        }
        &&& m == missing_template_text(path, name, catalog, #[trigger] quoted_all(picked))
    }
}

/// The template names fit the machine together with the name asked for.
pub open spec fn names_fit(name: Seq<char>, catalog: Option<&TemplateCatalog>) -> bool {
    match catalog {
        Some(c) => forall|j: int| 0 <= j < c.names@.len() ==> name.len() + (#[trigger] c.names@[j])@.len() < usize::MAX,
        None => true,
    }
}

/// `r` is what checking command `c` against the registry comes to: a
/// command naming no template passes; with no registry the template is
/// missing; a command rendering events needs its event template (and, when
/// its summary template is not registered, passes, since it may render no
/// summary); otherwise the named template must be found.
pub open spec fn command_template_outcome(c: CommandTemplate, catalog: Option<TemplateCatalog>, r: Result<(), SetupError>) -> bool {
    match c.template {
        TemplateRef::Named(name) => {
            let event_name = name@ + ".event"@;
            if catalog is None {
                r matches Err(SetupError::Template(m)) && is_missing_message(m@, c.path@, name@, catalog)
            } else if c.emits_events && !(c.event_lookup is Found) {
                match c.event_lookup {
                    TemplateLookup::NotFound => r matches Err(SetupError::Template(m)) && m@ == missing_event_text(
                        c.path@,
                        name@,
                        event_name,
                    ),
                    TemplateLookup::Failed { location, message } => r matches Err(SetupError::Template(m)) && m@
                        == refresh_text(event_name, location@, message@),
                    TemplateLookup::Found => false,
                }
            } else if c.emits_events && c.lookup is NotFound {
                r is Ok
            } else {
                match c.lookup {
                    TemplateLookup::Found => r is Ok,
                    TemplateLookup::NotFound => r matches Err(SetupError::Template(m)) && is_missing_message(
                        m@,
                        c.path@,
                        name@,
                        catalog,
                    ),
                    TemplateLookup::Failed { location, message } => r matches Err(SetupError::Template(m)) && m@
                        == refresh_text(name@, location@, message@),
                }
            }
        },
        _ => r is Ok,
    }
}

/// The refresh error's text for a template that could not be read.
fn refresh_message(name: &str, location: &String, message: &String) -> (m: String)
    ensures
        m@ == refresh_text(name@, location@, message@),
{
    TemplateRefreshError::new(name, location.as_str(), message.as_str()).to_text()
}

/// Check one command's template against the registry.
pub fn check_command_template(c: &CommandTemplate, catalog: Option<&TemplateCatalog>) -> (r: Result<(), SetupError>)
    requires
        c.template matches TemplateRef::Named(name) ==> names_fit(name@, catalog),
    ensures
        command_template_outcome(*c, match catalog {
            Some(k) => Some(*k),
            None => None,
        }, r),
{
    let name = match &c.template {
        TemplateRef::Named(name) => name,
        _ => {
            return Ok(());
        },
    };
    let registry = match catalog {
        None => {
            let m = missing_template_message(c.path.as_str(), name.as_str(), None);
            return Err(SetupError::Template(m));
        },
        Some(k) => k,
    };
    if c.emits_events {
        let event_name = concat(name.as_str(), ".event");
        match &c.event_lookup {
            TemplateLookup::NotFound => {
                let m = missing_event_template_message(c.path.as_str(), name.as_str(), event_name.as_str());
                return Err(SetupError::Template(m));
            },
            TemplateLookup::Failed { location, message } => {
                return Err(SetupError::Template(refresh_message(event_name.as_str(), location, message)));
            },
            TemplateLookup::Found => {},
        }
        if let TemplateLookup::NotFound = &c.lookup {
            return Ok(());
        }
    }
    match &c.lookup {
        TemplateLookup::Found => Ok(()),
        TemplateLookup::NotFound => {
            let m = missing_template_message(c.path.as_str(), name.as_str(), Some(registry));
            Err(SetupError::Template(m))
        },
        TemplateLookup::Failed { location, message } => Err(
            SetupError::Template(refresh_message(name.as_str(), location, message)),
        ),
    }
}

/// Check every command's template against the registry, in order: the
/// first command whose check fails gives the error.
pub fn validate_command_templates(commands: &Vec<CommandTemplate>, catalog: Option<&TemplateCatalog>) -> (r: Result<
    (),
    SetupError,
>)
    requires
        forall|i: int| 0 <= i < commands@.len() ==> ((#[trigger] commands@[i]).template matches TemplateRef::Named(
            name,
        ) ==> names_fit(name@, catalog)),
    ensures
        r is Ok ==> forall|i: int| 0 <= i < commands@.len() ==> command_template_outcome(
            #[trigger] commands@[i],
            match catalog {
                Some(k) => Some(*k),
                None => None,
            },
            Ok(()),
        ),
        r is Err ==> exists|i: int| {
            &&& 0 <= i < commands@.len()
            &&& command_template_outcome(
                #[trigger] commands@[i],
                match catalog {
                    Some(k) => Some(*k),
                    None => None,
                },
                r,
            )
            &&& forall|j: int| 0 <= j < i ==> command_template_outcome(
                #[trigger] commands@[j],
                match catalog {
                    Some(k) => Some(*k),
                    None => None,
                },
                Ok(()),
            )
        },
{
    let mut i: usize = 0;
    while i < commands.len()
        invariant
            i <= commands@.len(),
            forall|j: int| 0 <= j < commands@.len() ==> ((#[trigger] commands@[j]).template matches TemplateRef::Named(
                name,
            ) ==> names_fit(name@, catalog)),
            forall|j: int| 0 <= j < i ==> command_template_outcome(
                #[trigger] commands@[j],
                match catalog {
                    Some(k) => Some(*k),
                    None => None,
                },
                Ok(()),
            ),
        decreases commands@.len() - i,
    {
        let r = check_command_template(&commands[i], catalog);
        if r.is_err() {
            return r;
        }
        i = i + 1;
    }
    Ok(())
}

} // verus!
