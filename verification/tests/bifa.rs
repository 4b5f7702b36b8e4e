use rgb_schemas::bifa::{bifa_schema, BIFA_SCHEMA_ID};
use rgb_schemas::{
    MS_CLAIM_AMOUNT, MS_CLAIM_CHAIN_ID, MS_CLAIM_CONTRACT, MS_CLAIM_EVENT_LOG_INDEX,
    MS_CLAIM_EVENT_TX_HASH, MS_CLAIM_NULLIFIER, MS_CLAIM_PROOF, OS_CLAIM_BATON, TS_CLAIM_MINT,
    TS_GRANT_BATON, TS_TRANSFER,
};
use rgbstd::schema::Occurrences;
use rgbstd::{AssignmentType, MetaType, SchemaId, TransitionType};

#[test]
fn schema_id() {
    let schema_id = bifa_schema().schema_id();
    println!("{:#04x?}", schema_id.to_byte_array());
    assert_eq!(SchemaId::from_array(BIFA_SCHEMA_ID), schema_id);
}

#[test]
fn claim_mint_parallel_baton_invariants() {
    let schema = bifa_schema();
    let claim = &schema
        .transitions
        .get(&TransitionType::with(TS_CLAIM_MINT))
        .expect("claimMint transition must exist")
        .transition_schema;

    assert!(claim.metadata.contains(&MetaType::with(MS_CLAIM_NULLIFIER)));
    assert!(claim.metadata.contains(&MetaType::with(MS_CLAIM_CHAIN_ID)));
    assert!(claim.metadata.contains(&MetaType::with(MS_CLAIM_CONTRACT)));
    assert!(claim.metadata.contains(&MetaType::with(MS_CLAIM_EVENT_TX_HASH)));
    assert!(claim.metadata.contains(&MetaType::with(MS_CLAIM_EVENT_LOG_INDEX)));
    assert!(claim.metadata.contains(&MetaType::with(MS_CLAIM_PROOF)));
    assert!(claim.metadata.contains(&MetaType::with(MS_CLAIM_AMOUNT)));
    assert_eq!(
        schema.genesis.assignments.get(&AssignmentType::with(OS_CLAIM_BATON)),
        Some(&Occurrences::NoneOrMore)
    );
    assert_eq!(claim.inputs.get(&AssignmentType::with(OS_CLAIM_BATON)), Some(&Occurrences::Once));
    assert_eq!(
        claim.assignments.get(&AssignmentType::with(OS_CLAIM_BATON)),
        Some(&Occurrences::Once)
    );
}

#[test]
fn transfer_cannot_move_claim_baton() {
    let schema = bifa_schema();
    let transfer = &schema
        .transitions
        .get(&TransitionType::with(TS_TRANSFER))
        .expect("transfer transition must exist")
        .transition_schema;

    assert!(!transfer.inputs.contains_key(&AssignmentType::with(OS_CLAIM_BATON)));
    assert!(!transfer.assignments.contains_key(&AssignmentType::with(OS_CLAIM_BATON)));
}

#[test]
fn grant_baton_is_permissionless_and_parallel() {
    let schema = bifa_schema();
    let grant = &schema
        .transitions
        .get(&TransitionType::with(TS_GRANT_BATON))
        .expect("grantBaton transition must exist")
        .transition_schema;

    assert_eq!(grant.inputs.get(&AssignmentType::with(OS_CLAIM_BATON)), Some(&Occurrences::Once));
    assert_eq!(
        grant.assignments.get(&AssignmentType::with(OS_CLAIM_BATON)),
        Some(&Occurrences::OnceOrMore)
    );
}
