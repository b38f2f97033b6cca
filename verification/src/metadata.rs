//! On-chain metadata a token can carry.

use vstd::prelude::*;

verus! {

/// One attribute of a token, in the style of common marketplace metadata.
#[derive(Clone, Debug, PartialEq)]
pub struct Trait {
    pub display_type: Option<String>,
    pub trait_type: String,
    pub value: String,
}

/// The metadata stored with a token.
#[derive(Clone, Debug, PartialEq)]
pub struct Metadata {
    pub image: Option<String>,
    pub image_data: Option<String>,
    pub external_url: Option<String>,
    pub description: Option<String>,
    pub name: Option<String>,
    pub attributes: Option<Vec<Trait>>,
    pub background_color: Option<String>,
}

/// What a mint request carries beside the token's id, owner and URI.
pub type Extension = Option<Metadata>;

impl Default for Metadata {
    /// The metadata with every field unset.
    fn default() -> (m: Metadata)
        ensures
            m.image is None,
            m.image_data is None,
            m.external_url is None,
            m.description is None,
            m.name is None,
            m.attributes is None,
            m.background_color is None,
    {
        Metadata {
            image: None,
            image_data: None,
            external_url: None,
            description: None,
            name: None,
            attributes: None,
            background_color: None,
        }
    }
}

} // verus!
