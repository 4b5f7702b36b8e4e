use rgb_schemas::schema::Script;
use rgb_schemas::scripts::{
    claim_mint_script, genesis_script, inflation_script, script_ops, transfer_script, AluOp,
};
use rgb_schemas::{
    ERRNO_INFLATION_EXCEEDS_ALLOWANCE, ERRNO_ISSUED_MISMATCH, ERRNO_NON_EQUAL_IN_OUT,
    GS_ISSUED_SUPPLY, OS_ASSET, OS_CLAIM_BATON, OS_INFLATION, OS_LINK,
};

fn errno_before(p: &[AluOp], i: usize) -> Option<u8> {
    p[..i].iter().rev().find_map(|op| match op {
        AluOp::PutA8 { reg: 0, value } => Some(*value),
        _ => None,
    })
}

fn check_common(p: &[AluOp]) {
    assert_eq!(p.last(), Some(&AluOp::Ret));
    assert_eq!(p.iter().filter(|op| **op == AluOp::Ret).count(), 1);
    for (i, op) in p.iter().enumerate() {
        if *op == AluOp::Test {
            assert!(errno_before(p, i).is_some());
        }
    }
}

#[test]
fn scripts_are_well_formed() {
    for p in [genesis_script(), transfer_script(), inflation_script(), claim_mint_script()] {
        check_common(&p);
    }
    assert_eq!(genesis_script().len(), 15);
    assert_eq!(transfer_script().len(), 11);
    assert_eq!(inflation_script().len(), 19);
    assert_eq!(claim_mint_script().len(), 13);
    assert_eq!(script_ops(Script::Transfer), transfer_script());
    assert_eq!(script_ops(Script::Genesis), genesis_script());
}

#[test]
fn transfer_script_balances_and_counts_links() {
    let p = transfer_script();
    assert_eq!(p[1], AluOp::Svs { ty: OS_ASSET });
    assert_eq!(p[3], AluOp::Svs { ty: OS_INFLATION });
    assert_eq!(p[6], AluOp::CnP { ty: OS_LINK, reg: 0 });
    assert_eq!(p[7], AluOp::CnS { ty: OS_LINK, reg: 1 });
    assert_eq!(p[8], AluOp::EqNA16 { a: 0, b: 1 });
    assert_eq!(errno_before(&p, 9), Some(ERRNO_NON_EQUAL_IN_OUT));
}

#[test]
fn claim_mint_script_conserves_baton() {
    let p = claim_mint_script();
    assert_eq!(p[3], AluOp::LdG { ty: GS_ISSUED_SUPPLY, item: 1, dst: 0 });
    assert_eq!(p[5], AluOp::Sas { ty: OS_ASSET });
    assert_eq!(errno_before(&p, 6), Some(ERRNO_ISSUED_MISMATCH));
    assert_eq!(p[8], AluOp::CnP { ty: OS_CLAIM_BATON, reg: 0 });
    assert_eq!(p[9], AluOp::CnS { ty: OS_CLAIM_BATON, reg: 1 });
    assert_eq!(errno_before(&p, 11), Some(ERRNO_NON_EQUAL_IN_OUT));
}

#[test]
fn inflation_script_checks_allowance() {
    let p = inflation_script();
    assert_eq!(p[14], AluOp::AddUcA64 { src: 1, dst: 0 });
    assert_eq!(p[16], AluOp::Sps { ty: OS_INFLATION });
    assert_eq!(errno_before(&p, 17), Some(ERRNO_INFLATION_EXCEEDS_ALLOWANCE));
}
