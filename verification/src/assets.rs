//! The typed vocabulary of assets: metadata, grants, class specifications.

use vstd::prelude::*;

use crate::character::Character;

verus! {

/// `serde_yaml::Value` carries any unrecognized field of an asset document
/// losslessly.  The crate never looks inside such a value; it is declared
/// here so that it can be stored and passed through.
#[verifier::external_type_specification]
#[verifier::external_body]
pub struct ExYamlValue(serde_yaml::Value);

/// MetaData identifies and describes any asset.
#[derive(Debug, PartialEq)]
pub struct MetaData {
    /// Unique Id for this Asset
    pub id: String,
    /// Pretty Name to be displayed
    pub name: String,
    /// User-written notes
    pub notes: Option<String>,
    /// A Description
    pub description: Option<String>,
    /// Any other fields as needed, kept in the order they were read
    pub extra: Vec<(String, serde_yaml::Value)>,
}

/// The mathematical content of a [`MetaData`]: every string replaced by its
/// character sequence.
pub struct MetaDataView {
    /// Unique Id for this Asset
    pub id: Seq<char>,
    /// Pretty Name to be displayed
    pub name: Seq<char>,
    /// User-written notes
    pub notes: Option<Seq<char>>,
    /// A Description
    pub description: Option<Seq<char>>,
    /// Any other fields as needed
    pub extra: Seq<(Seq<char>, serde_yaml::Value)>,
}

impl DeepView for MetaData {
    type V = MetaDataView;

    open spec fn deep_view(&self) -> MetaDataView {
        MetaDataView {
            id: self.id@,
            name: self.name@,
            notes: match self.notes {
                Some(n) => Some(n@),
                None => None,
            },
            description: match self.description {
                Some(d) => Some(d@),
                None => None,
            },
            extra: self.extra@.map_values(|p: (String, serde_yaml::Value)| (p.0@, p.1)),
        }
    }
}

/// Asset Grants
#[derive(Debug, PartialEq)]
pub enum Grant {
    /// Proficiency
    Proficiency {
        /// Unique ID
        id: String,
    },
}

/// SelectVariant: a named choice of a bounded number of ids.
#[derive(Debug, PartialEq)]
pub struct SelectVariant {
    /// Pretty Name to be displayed
    pub name: String,
    /// The number of ids that can be selected
    pub number: usize,
    /// The ids that may be selected
    pub id: Vec<String>,
}

/// Select
#[derive(Debug, PartialEq)]
pub enum Select {
    /// A Selector for the Proficiency Asset
    Proficiency(SelectVariant),
}

/// Spec
#[derive(Debug, PartialEq)]
pub enum Spec {
    /// Class Spec
    Class {
        /// Setters for Class Spec
        set: Setter,
        /// Grants for Class Spec
        grant: Vec<Grant>,
        /// Selects for Class Spec
        select: Vec<Select>,
    },
}

/// Die
#[derive(Debug, Eq, PartialEq, Hash, Clone, Copy)]
pub enum Die {
    /// D4
    D4,
    /// D6
    D6,
    /// D8
    D8,
    /// D10
    D10,
    /// D12
    D12,
    /// D20
    D20,
}

/// Setter
#[derive(Debug, Eq, PartialEq, Hash)]
pub enum Setter {
    /// Class Setter
    Class {
        /// Class Setter Hit Dice
        hit_dice: Die,
    },
}

/// Asset
#[derive(Debug, PartialEq)]
pub enum Asset {
    /// Character Asset
    Character(Character),
    /// Class Asset
    Class {
        /// MetaData
        metadata: MetaData,
        /// Spec
        spec: Spec,
    },
    /// Proficiency Asset
    Proficiency {
        /// MetaData
        metadata: MetaData,
    },
    /// Language Asset
    Language {
        /// MetaData
        metadata: MetaData,
    },
}

} // verus!
