//! What a caller may say about its configuration directory.

use vstd::prelude::*;
use crate::path::chars_of;

verus! {

/// Under which root the configuration directory is placed.
#[derive(Clone, Copy, Debug, PartialEq, Eq, Structural)]
pub enum Placement {
    /// Under the home directory of the current user.
    Home,
    /// Under `/opt`, for the whole system.
    SystemOpt,
}

/// The placement that a label stands for: `opt` for the system-wide one, and
/// the home directory for every other label.
pub open spec fn placement_of(label: Seq<char>) -> Placement {
    if label == "opt"@ {
        Placement::SystemOpt
    } else {
        Placement::Home
    }
}

impl Placement {
    /// Reads a placement from its label. A label that is not known means the
    /// home directory; none is refused.
    pub fn from_label(label: &str) -> (placement: Placement)
        ensures
            placement == placement_of(label@),
    {
        let chars = chars_of(label);
        proof {
            reveal_strlit("opt");
        }
        if chars.len() == 3 && chars[0] == 'o' && chars[1] == 'p' && chars[2] == 't' {
            assert(label@ =~= "opt"@);
            Placement::SystemOpt
        } else {
            Placement::Home
        }
    }
}

/// The options of one initialization. Each may be left out.
#[derive(Debug, PartialEq, Eq)]
pub struct ConfigOptions {
    /// The name of the directory; the application's own name if left out.
    pub name: Option<String>,
    /// Where the directory is placed; under the home directory if left out.
    pub placement: Option<Placement>,
    /// Whether the directory's name gets a leading dot; not if left out.
    pub hidden: Option<bool>,
}

/// Options as contracts see them.
pub struct OptionsModel {
    pub name: Option<Seq<char>>,
    pub placement: Option<Placement>,
    pub hidden: Option<bool>,
}

impl OptionsModel {
    /// The name in force, given the application's own name.
    pub open spec fn effective_name(self, app_name: Seq<char>) -> Seq<char> {
        match self.name {
            Some(name) => name,
            None => app_name,
        }
    }

    /// The placement in force.
    pub open spec fn effective_placement(self) -> Placement {
        match self.placement {
            Some(placement) => placement,
            None => Placement::Home,
        }
    }

    /// Whether the directory is hidden.
    pub open spec fn effective_hidden(self) -> bool {
        match self.hidden {
            Some(hidden) => hidden,
            None => false,
        }
    }
}

impl View for ConfigOptions {
    type V = OptionsModel;

    open spec fn view(&self) -> OptionsModel {
        OptionsModel {
            name: self.name.deep_view(),
            placement: self.placement,
            hidden: self.hidden,
        }
    }
}

impl ConfigOptions {
    /// Options with everything left out.
    pub fn new() -> (options: ConfigOptions)
        ensures
            options@ == (OptionsModel { name: None, placement: None, hidden: None }),
    {
        ConfigOptions { name: None, placement: None, hidden: None }
    }

    /// These options with the directory named `name`.
    pub fn with_name(self, name: &str) -> (options: ConfigOptions)
        ensures
            options@ == (OptionsModel { name: Some(name@), ..self@ }),
    {
        ConfigOptions {
            name: Some(String::from_str(name)),
            placement: self.placement,
            hidden: self.hidden,
        }
    }

    /// These options with the directory placed at `placement`.
    pub fn with_placement(self, placement: Placement) -> (options: ConfigOptions)
        ensures
            options@ == (OptionsModel { placement: Some(placement), ..self@ }),
    {
        ConfigOptions { name: self.name, placement: Some(placement), hidden: self.hidden }
    }

    /// These options with the directory hidden or not.
    pub fn with_hidden(self, hidden: bool) -> (options: ConfigOptions)
        ensures
            options@ == (OptionsModel { hidden: Some(hidden), ..self@ }),
    {
        ConfigOptions { name: self.name, placement: self.placement, hidden: Some(hidden) }
    }
}

} // verus!
