use rgb_schemas::schema::{bifa_schema_model, lookup_occurs, Occurs, OwnedKind, Script, SemType};
use rgb_schemas::{
    GS_ISSUED_SUPPLY, GS_LINKED_FROM_CONTRACT, GS_LINKED_TO_CONTRACT, MS_ALLOWED_INFLATION,
    MS_CLAIM_AMOUNT, MS_CLAIM_CHAIN_ID, MS_CLAIM_CONTRACT, MS_CLAIM_EVENT_LOG_INDEX,
    MS_CLAIM_EVENT_TX_HASH, MS_CLAIM_NULLIFIER, MS_CLAIM_PROOF, OS_ASSET, OS_CLAIM_BATON,
    OS_INFLATION, OS_LINK, TS_BURN, TS_CLAIM_MINT, TS_GRANT_BATON, TS_INFLATION, TS_LINK,
    TS_TRANSFER,
};

#[test]
fn model_claim_mint_carries_all_claim_metadata() {
    let s = bifa_schema_model();
    let claim = &s.transition(TS_CLAIM_MINT).expect("claimMint exists").op;
    for m in [
        MS_CLAIM_AMOUNT,
        MS_CLAIM_CHAIN_ID,
        MS_CLAIM_CONTRACT,
        MS_CLAIM_EVENT_LOG_INDEX,
        MS_CLAIM_EVENT_TX_HASH,
        MS_CLAIM_NULLIFIER,
        MS_CLAIM_PROOF,
    ] {
        assert!(claim.has_metadata(m));
    }
    assert!(!claim.has_metadata(MS_ALLOWED_INFLATION));
    assert_eq!(claim.input(OS_CLAIM_BATON), Some(Occurs::Once));
    assert_eq!(claim.assignment(OS_CLAIM_BATON), Some(Occurs::Once));
    assert_eq!(claim.assignment(OS_ASSET), Some(Occurs::OnceOrMore));
    assert_eq!(claim.global(GS_ISSUED_SUPPLY), Some(Occurs::Once));
    assert_eq!(claim.validator, Some(Script::ClaimMint));
}

#[test]
fn model_baton_moves_only_by_claim_mint_and_grant() {
    let s = bifa_schema_model();
    assert_eq!(s.genesis.assignment(OS_CLAIM_BATON), Some(Occurs::NoneOrMore));
    for t in [TS_TRANSFER, TS_INFLATION, TS_BURN, TS_LINK] {
        let op = &s.transition(t).expect("transition exists").op;
        assert_eq!(op.input(OS_CLAIM_BATON), None);
        assert_eq!(op.assignment(OS_CLAIM_BATON), None);
    }
    let grant = &s.transition(TS_GRANT_BATON).expect("grantBaton exists").op;
    assert_eq!(grant.input(OS_CLAIM_BATON), Some(Occurs::Once));
    assert_eq!(grant.assignment(OS_CLAIM_BATON), Some(Occurs::OnceOrMore));
    assert_eq!(grant.validator, None);
}

#[test]
fn model_unknown_transition_is_absent() {
    let s = bifa_schema_model();
    assert!(s.transition(1).is_none());
    assert!(s.transition(TS_TRANSFER).is_some());
}

#[test]
fn model_supply_and_link_rules() {
    let s = bifa_schema_model();
    let inflate = &s.transition(TS_INFLATION).unwrap().op;
    assert_eq!(inflate.input(OS_INFLATION), Some(Occurs::OnceOrMore));
    assert!(inflate.has_metadata(MS_ALLOWED_INFLATION));
    assert_eq!(inflate.validator, Some(Script::Inflation));
    let burn = &s.transition(TS_BURN).unwrap().op;
    assert_eq!(burn.assignment(OS_ASSET), None);
    assert_eq!(burn.input(OS_ASSET), Some(Occurs::NoneOrMore));
    let link = &s.transition(TS_LINK).unwrap().op;
    assert_eq!(link.input(OS_LINK), Some(Occurs::Once));
    assert_eq!(link.global(GS_LINKED_TO_CONTRACT), Some(Occurs::Once));
    assert_eq!(s.genesis.global(GS_LINKED_FROM_CONTRACT), Some(Occurs::NoneOrOnce));
    assert_eq!(s.genesis.assignment(OS_LINK), Some(Occurs::NoneOrOnce));
    assert_eq!(s.genesis.validator, Some(Script::Genesis));
    assert_eq!(s.default_assignment, Some(OS_ASSET));
    assert_eq!(s.name, "BridgedInflatableFungibleAsset");
}

#[test]
fn model_tables() {
    let s = bifa_schema_model();
    assert_eq!(s.meta_types.len(), 8);
    assert_eq!(s.global_types.len(), 9);
    assert_eq!(s.owned_types.len(), 4);
    assert_eq!(s.transitions.len(), 6);
    let baton = s.owned_types.iter().find(|e| e.id == OS_CLAIM_BATON).unwrap();
    assert_eq!(baton.kind, OwnedKind::Declarative);
    assert_eq!(baton.default_transition, TS_GRANT_BATON);
    assert_eq!(baton.name, "claimMintBaton");
    let issued = s.global_types.iter().find(|e| e.id == GS_ISSUED_SUPPLY).unwrap();
    assert!(issued.many);
    assert_eq!(issued.sem, SemType::Amount);
    assert_eq!(SemType::ContractId.qualified_name(), "RGBCommit.ContractId");
    assert_eq!(SemType::RejectListUrl.qualified_name(), "RGBContract.RejectListUrl");
}

#[test]
fn lookup_later_pair_wins() {
    let v = vec![(7u16, Occurs::Once), (9u16, Occurs::NoneOrMore), (7u16, Occurs::OnceOrMore)];
    assert_eq!(lookup_occurs(&v, 7), Some(Occurs::OnceOrMore));
    assert_eq!(lookup_occurs(&v, 9), Some(Occurs::NoneOrMore));
    assert_eq!(lookup_occurs(&v, 8), None);
    assert_eq!(lookup_occurs(&Vec::new(), 8), None);
}
