//! A quick module to abstract calls to the api.

use vstd::prelude::*;

use crate::assets::{Asset, MetaData, MetaDataView};

verus! {

/// Error for API
#[derive(Debug, Clone, Copy)]
pub struct ApiError;

/// The metadata that [`fetch_asset_definition`] builds for a requested id:
/// the id itself, with every other field left empty.
pub open spec fn spec_default_meta(id: Seq<char>) -> MetaDataView {
    MetaDataView { id, name: Seq::empty(), notes: None, description: None, extra: Seq::empty() }
}

/// Fetches asset definition from an api.
///
/// For now this resolves every request to a proficiency asset whose metadata
/// carries the requested id and nothing else.
pub fn fetch_asset_definition(_ty: &str, id: &str) -> (r: Result<Asset, ApiError>)
    ensures
        r matches Ok(Asset::Proficiency { metadata }) && metadata.deep_view()
            == spec_default_meta(id@),
{
    let metadata = MetaData {
        id: id.to_owned(),
        name: String::new(),
        notes: None,
        description: None,
        extra: Vec::new(),
    };
    proof {
        assert(metadata.deep_view().extra =~= Seq::<(Seq<char>, serde_yaml::Value)>::empty());
        assert(metadata.deep_view() =~= spec_default_meta(id@));
    }
    Ok(Asset::Proficiency { metadata })
}

/// A capability that resolves an asset type and id to a full asset
/// definition.  A derivation consults it for every `Proficiency` grant, so a
/// caller may inject a different resolver, for instance one that answers
/// from a cache or one that always fails.
pub trait AssetResolver {
    /// Which results this resolver can hand back for a given asset type and
    /// id.  An implementation that pins this relation down gets a derivation
    /// specified against it; one that leaves the default promises nothing.
    open spec fn resolves(
        &self,
        asset_type: Seq<char>,
        id: Seq<char>,
        r: Result<Asset, ApiError>,
    ) -> bool {
        true
    }

    /// Resolves the asset with the given type and id, or reports failure.
    fn fetch_asset_definition(&self, asset_type: &str, id: &str) -> (r: Result<Asset, ApiError>)
        ensures
            self.resolves(asset_type@, id@, r),
    ;
}

/// The resolver that answers through [`fetch_asset_definition`].
pub struct ApiResolver;

impl AssetResolver for ApiResolver {
    open spec fn resolves(&self, asset_type: Seq<char>, id: Seq<char>, r: Result<Asset, ApiError>) -> bool {
        r matches Ok(Asset::Proficiency { metadata }) && metadata.deep_view()
            == spec_default_meta(id)
    }

    fn fetch_asset_definition(&self, asset_type: &str, id: &str) -> (r: Result<Asset, ApiError>) {
        fetch_asset_definition(asset_type, id)
    }
}

} // verus!
