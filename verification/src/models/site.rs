use std::collections::HashMap;
use vstd::prelude::*;

verus! {

/// `serde_json::Value`, a JSON value. It is carried through as `serde_json`
/// holds it; nothing is claimed of it.
#[verifier::external_type_specification]
#[verifier::external_body]
pub struct ExJsonValue(serde_json::Value);

/// A site: one of the parts into which a controller divides what it manages.
#[derive(Debug, Clone)]
pub struct Site {
    /// The identifier of the site.
    pub id: String,
    /// The name by which API calls speak of the site, such as `default`.
    pub name: String,
    /// The name by which people speak of the site.
    pub desc: String,
    /// The role that the user has on the site.
    pub role: Option<String>,
    /// Whether the site is hidden.
    pub hidden: Option<bool>,
    /// What else the controller says of the site.
    pub attributes: Option<HashMap<String, serde_json::Value>>,
}

impl Site {
    /// How the site is shown: the description, and the name in brackets.
    pub open spec fn spec_label(&self) -> Seq<char> {
        self.desc@ + " ("@ + self.name@ + ")"@
    }

    /// How the site is shown: the description, and the name in brackets.
    pub fn label(&self) -> (label: String)
        ensures
            label@ == self.spec_label(),
    {
        let mut label = self.desc.clone();
        label.append(" (");
        label.append(self.name.as_str());
        label.append(")");
        label
    }
}

} // verus!
