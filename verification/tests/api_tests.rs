use validator::api::fetch_asset_definition;
use validator::assets::Asset;
use validator::character::{CharacterAssetGrant, FetchDefFromAPI};

#[test]
fn fetch_asset_definition_answers_with_the_requested_id() {
    let asset = fetch_asset_definition("proficiency", "perception").unwrap();
    match asset {
        Asset::Proficiency { metadata } => {
            assert_eq!(metadata.id, "perception");
            assert_eq!(metadata.name, "");
            assert_eq!(metadata.notes, None);
            assert_eq!(metadata.description, None);
            assert!(metadata.extra.is_empty());
        }
        _ => panic!("expected a proficiency asset"),
    }
}

#[test]
fn proficiency_grants_fetch_their_definition() {
    let g = CharacterAssetGrant::Proficiency {
        id: String::from("perception"),
    };
    let asset = g.fetch_def().unwrap();
    match asset {
        Asset::Proficiency { metadata } => assert_eq!(metadata.id, "perception"),
        _ => panic!("expected a proficiency asset"),
    }
}

#[test]
fn non_proficiency_grants_have_no_definition_to_fetch() {
    let g = CharacterAssetGrant::Language {
        id: String::from("common"),
    };
    assert!(g.fetch_def().is_err());
}
