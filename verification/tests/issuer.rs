use rgb_schemas::bifa::{
    bifa_lib_claim_mint, bifa_lib_genesis, bifa_lib_inflation, bifa_lib_transfer, bifa_schema,
    is_bifa_schema, BifaSchema,
    BridgedInflatableFungibleAsset,
};
use rgb_schemas::{TS_BURN, TS_CLAIM_MINT, TS_GRANT_BATON, TS_INFLATION, TS_LINK, TS_TRANSFER};
use rgbstd::TransitionType;

#[test]
fn scripts_hold_the_four_libraries() {
    let libs = BridgedInflatableFungibleAsset::scripts();
    assert_eq!(libs.len(), 4);
    assert_eq!(libs[0].0, bifa_lib_genesis().id());
    assert_eq!(libs[1].0, bifa_lib_transfer().id());
    assert_eq!(libs[2].0, bifa_lib_inflation().id());
    assert_eq!(libs[3].0, bifa_lib_claim_mint().id());
    for (id, lib) in &libs {
        assert_eq!(*id, lib.id());
    }
    assert_ne!(libs[0].0, libs[1].0);
    assert_ne!(libs[2].0, libs[3].0);
}

#[test]
fn schema_validators_are_provided_by_scripts() {
    let schema = bifa_schema();
    let libs = BridgedInflatableFungibleAsset::scripts();
    let site = schema.genesis.validator.expect("genesis has a validator");
    assert_eq!(site.lib, libs[0].0);
    assert_eq!(site.pos, 0);
    for (t, lib) in [(TS_TRANSFER, Some(1)), (TS_INFLATION, Some(2)), (TS_CLAIM_MINT, Some(3)),
                     (TS_GRANT_BATON, None), (TS_BURN, None), (TS_LINK, None)] {
        let ts = &schema.transitions.get(&TransitionType::with(t)).unwrap().transition_schema;
        assert_eq!(ts.validator.map(|s| s.lib), lib.map(|i: usize| libs[i].0));
    }
}

#[test]
fn issuer_schema_and_types() {
    let schema = BridgedInflatableFungibleAsset::schema();
    assert_eq!(schema.schema_id(), bifa_schema().schema_id());
    let types = BridgedInflatableFungibleAsset::types();
    for sem in schema.types() {
        assert!(types.get(sem).is_some());
    }
}

#[test]
fn only_the_bifa_schema_is_recognised() {
    let schema = bifa_schema();
    assert!(is_bifa_schema(&schema));
    let mut other = bifa_schema();
    other.default_assignment = None;
    assert!(!is_bifa_schema(&other));
}

#[test]
fn a_bifa_schema_keeps_the_schema() {
    let schema = bifa_schema();
    assert!(is_bifa_schema(&schema));
    let bifa = BifaSchema::with(schema.clone());
    assert_eq!(bifa.schema().schema_id(), schema.schema_id());
}
