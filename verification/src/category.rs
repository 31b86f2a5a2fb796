//! The fixed set of categories a dataset (and the agent trained on it) can
//! carry, together with the canonical textual form used by the record store
//! and the upload interface.

use vstd::prelude::*;

verus! {

/// Category assigned to a dataset and to the agent trained on it.
#[derive(Clone, Copy, Debug, PartialEq, Eq, Structural)]
pub enum AgentCategory {
    Web3,
    Financial,
    Analytics,
    Healthcare,
    IoT,
    Gaming,
    ConsumerData,
    SocialMedia,
    Environmental,
}

impl AgentCategory {
    /// The canonical label of a category, as the record store writes it.
    pub open spec fn label_view(self) -> Seq<char> {
        match self {
            AgentCategory::Web3 => "Web3"@,
            AgentCategory::Financial => "Financial"@,
            AgentCategory::Analytics => "Analytics"@,
            AgentCategory::Healthcare => "Healthcare"@,
            AgentCategory::IoT => "IoT"@,
            AgentCategory::Gaming => "Gaming"@,
            AgentCategory::ConsumerData => "Consumer Data"@,
            AgentCategory::SocialMedia => "Social Media"@,
            AgentCategory::Environmental => "Environmental"@,
        }
    }

    /// The category a label denotes, or `None` for any other string.
    pub open spec fn from_string_view(s: Seq<char>) -> Option<AgentCategory> {
        if s == "Web3"@ {
            Some(AgentCategory::Web3)
        } else if s == "Financial"@ {
            Some(AgentCategory::Financial)
        } else if s == "Analytics"@ {
            Some(AgentCategory::Analytics)
        } else if s == "Healthcare"@ {
            Some(AgentCategory::Healthcare)
        } else if s == "IoT"@ {
            Some(AgentCategory::IoT)
        } else if s == "Gaming"@ {
            Some(AgentCategory::Gaming)
        } else if s == "Consumer Data"@ {
            Some(AgentCategory::ConsumerData)
        } else if s == "Social Media"@ {
            Some(AgentCategory::SocialMedia)
        } else if s == "Environmental"@ {
            Some(AgentCategory::Environmental)
        } else {
            None
        }
    }

    /// Renders the canonical label of this category.
    pub fn label(&self) -> (r: String)
        ensures
            r@ == self.label_view(),
    {
        match self {
            AgentCategory::Web3 => "Web3".to_owned(),
            AgentCategory::Financial => "Financial".to_owned(),
            AgentCategory::Analytics => "Analytics".to_owned(),
            AgentCategory::Healthcare => "Healthcare".to_owned(),
            AgentCategory::IoT => "IoT".to_owned(),
            AgentCategory::Gaming => "Gaming".to_owned(),
            AgentCategory::ConsumerData => "Consumer Data".to_owned(),
            AgentCategory::SocialMedia => "Social Media".to_owned(),
            AgentCategory::Environmental => "Environmental".to_owned(),
        }
    }

    /// Parses a category label; any string that is not a canonical label is
    /// rejected.
    pub fn from_string(category: &str) -> (r: Option<AgentCategory>)
        ensures
            r == Self::from_string_view(category@),
    {
        let c: String = category.to_owned();
        if c == "Web3".to_owned() {
            Some(AgentCategory::Web3)
        } else if c == "Financial".to_owned() {
            Some(AgentCategory::Financial)
        } else if c == "Analytics".to_owned() {
            Some(AgentCategory::Analytics)
        } else if c == "Healthcare".to_owned() {
            Some(AgentCategory::Healthcare)
        } else if c == "IoT".to_owned() {
            Some(AgentCategory::IoT)
        } else if c == "Gaming".to_owned() {
            Some(AgentCategory::Gaming)
        } else if c == "Consumer Data".to_owned() {
            Some(AgentCategory::ConsumerData)
        } else if c == "Social Media".to_owned() {
            Some(AgentCategory::SocialMedia)
        } else if c == "Environmental".to_owned() {
            Some(AgentCategory::Environmental)
        } else {
            None
        }
    }
}

} // verus!
