//! The validation scripts of the BIFA schema, as AluVM programs of plain operations.
//!
//! Each script is a list of [`AluOp`]s; the functions that build them state the exact program,
//! and the checks that it performs: which sums must balance, which counts must match, and which
//! error number each failing check reports.

use vstd::prelude::*;

use crate::{
    ERRNO_INFLATION_EXCEEDS_ALLOWANCE, ERRNO_INFLATION_MISMATCH, ERRNO_ISSUED_MISMATCH,
    ERRNO_NON_EQUAL_IN_OUT, GS_ISSUED_SUPPLY, GS_MAX_SUPPLY, MS_ALLOWED_INFLATION, OS_ASSET,
    OS_CLAIM_BATON, OS_INFLATION, OS_LINK,
};

verus! {

/// One instruction of an RGB validation script.
///
/// Register numbers are indexes into the AluVM register banks: `a8`, `a16` and `a64` banks have
/// 32 registers, the `s16` bank has 16, and an offset or item index register is one of the
/// first 16 of its bank.
#[derive(Clone, Copy, PartialEq, Eq, Debug, Structural)]
#[allow(inconsistent_fields)]
pub enum AluOp {
    /// `put a8[reg],value`
    PutA8 { reg: u8, value: u8 },
    /// `put a16[reg],value`
    PutA16 { reg: u8, value: u16 },
    /// `svs ty`: the sum of the inputs of owned state `ty` equals the sum of its outputs.
    Svs { ty: u16 },
    /// `sas ty`: the sum of the outputs of owned state `ty` equals `a64[0]`.
    Sas { ty: u16 },
    /// `sps ty`: the sum of the inputs of owned state `ty` equals `a64[0]`.
    Sps { ty: u16 },
    /// `cnp ty,a16[reg]`: count the inputs of owned state `ty` into `a16[reg]`.
    CnP { ty: u16, reg: u8 },
    /// `cns ty,a16[reg]`: count the outputs of owned state `ty` into `a16[reg]`.
    CnS { ty: u16, reg: u8 },
    /// `ldg ty,a8[item],s16[dst]`: load the item numbered by `a8[item]` of global state `ty`.
    LdG { ty: u16, item: u8, dst: u8 },
    /// `ldm ty,s16[dst]`: load metadata `ty`.
    LdM { ty: u16, dst: u8 },
    /// `extr s16[src],a64[dst],a16[offset]`: read a 64-bit value from a byte string.
    ExtrA64 { src: u8, dst: u8, offset: u8 },
    /// `eq.n a16[a],a16[b]`: compare two registers.
    EqNA16 { a: u8, b: u8 },
    /// `add.uc a64[src],a64[dst]`: checked unsigned addition into `a64[dst]`.
    AddUcA64 { src: u8, dst: u8 },
    /// `sub.uc a64[src],a64[dst]`: checked unsigned subtraction into `a64[dst]`.
    SubUcA64 { src: u8, dst: u8 },
    /// `cpy a64[src],a64[dst]`
    CpyA64 { src: u8, dst: u8 },
    /// `test`: fail the script unless the last check succeeded.
    Test,
    /// `ret`
    Ret,
}

/// The register numbers of `op` are within their banks.
pub open spec fn op_wf(op: AluOp) -> bool {
    match op {
        AluOp::PutA8 { reg, .. } => reg < 32,
        AluOp::PutA16 { reg, .. } => reg < 32,
        AluOp::CnP { reg, .. } => reg < 32,
        AluOp::CnS { reg, .. } => reg < 32,
        AluOp::LdG { item, dst, .. } => item < 16 && dst < 16,
        AluOp::LdM { dst, .. } => dst < 16,
        AluOp::ExtrA64 { src, dst, offset } => src < 16 && dst < 16 && offset < 16,
        AluOp::EqNA16 { a, b } => a < 32 && b < 32,
        AluOp::AddUcA64 { src, dst } => src < 32 && dst < 32,
        AluOp::SubUcA64 { src, dst } => src < 32 && dst < 32,
        AluOp::CpyA64 { src, dst } => src < 32 && dst < 32,
        _ => true,
    }
}

/// A program that can be assembled into a library: at most 64 instructions, each well formed.
pub open spec fn program_wf(p: Seq<AluOp>) -> bool {
    &&& p.len() <= 64
    &&& forall|i: int| 0 <= i < p.len() ==> op_wf(#[trigger] p[i])
}

/// The program has a single exit, at its end.
pub open spec fn ends_with_single_ret(p: Seq<AluOp>) -> bool {
    &&& p.len() > 0
    &&& p.last() == AluOp::Ret
    &&& forall|i: int| 0 <= i < p.len() - 1 ==> #[trigger] p[i] != AluOp::Ret
}

/// The value last put into `a8[reg]` before position `i`, if any: only `put` writes to the
/// `a8` bank in these programs.
pub open spec fn a8_at(p: Seq<AluOp>, i: int, reg: u8) -> Option<u8>
    decreases i,
{
    if i <= 0 {
        None
    } else {
        match p[i - 1] {
            AluOp::PutA8 { reg: r, value } => if r == reg {
                Some(value)
            } else {
                a8_at(p, i - 1, reg)
            },
            _ => a8_at(p, i - 1, reg),
        }
    }
}

/// The constant that `a16[reg]` holds before position `i`, if a `put` set it and no count
/// overwrote it since.
pub open spec fn a16_at(p: Seq<AluOp>, i: int, reg: u8) -> Option<u16>
    decreases i,
{
    if i <= 0 {
        None
    } else {
        match p[i - 1] {
            AluOp::PutA16 { reg: r, value } => if r == reg {
                Some(value)
            } else {
                a16_at(p, i - 1, reg)
            },
            AluOp::CnP { reg: r, .. } => if r == reg {
                None
            } else {
                a16_at(p, i - 1, reg)
            },
            AluOp::CnS { reg: r, .. } => if r == reg {
                None
            } else {
                a16_at(p, i - 1, reg)
            },
            _ => a16_at(p, i - 1, reg),
        }
    }
}

/// The error number that a check at position `i` reports: the value of `a8[0]` there.
pub open spec fn errno_at(p: Seq<AluOp>, i: int) -> Option<u8> {
    a8_at(p, i, 0)
}

/// Every `test` of the program reports an error number.
pub open spec fn tests_report_errno(p: Seq<AluOp>) -> bool {
    forall|i: int| 0 <= i < p.len() && #[trigger] p[i] == AluOp::Test ==> errno_at(p, i) is Some
}

/// At position `i` the program checks that the inputs and outputs of `ty` sum up equally, and
/// fails with `errno` otherwise.
pub open spec fn checks_balance_at(p: Seq<AluOp>, i: int, ty: u16, errno: u8) -> bool {
    &&& 0 <= i && i + 1 < p.len()
    &&& p[i] == AluOp::Svs { ty }
    &&& p[i + 1] == AluOp::Test
    &&& errno_at(p, i + 1) == Some(errno)
}

/// From position `i` the program counts the inputs and outputs of `ty`, checks that the counts
/// are equal, and fails with `errno` otherwise.
pub open spec fn checks_count_at(p: Seq<AluOp>, i: int, ty: u16, errno: u8) -> bool {
    &&& 0 <= i && i + 3 < p.len()
    &&& p[i] matches AluOp::CnP { ty: t1, reg: a }
    &&& p[i + 1] matches AluOp::CnS { ty: t2, reg: b }
    &&& t1 == ty && t2 == ty
    &&& p[i + 2] == AluOp::EqNA16 { a, b }
    &&& p[i + 3] == AluOp::Test
    &&& errno_at(p, i + 3) == Some(errno)
}

/// From position `i` the program loads the first item of global state `g` (the item numbered
/// by `a8[item]`, which holds 0) and reads its 64-bit value at offset `a16[0]` (which holds 0)
/// into `a64[0]`, checks that the outputs of `ty` sum up to it, and fails with `errno`
/// otherwise.
pub open spec fn checks_outputs_sum_to_global_at(p: Seq<AluOp>, i: int, g: u16, ty: u16, errno: u8) -> bool {
    &&& 0 <= i && i + 3 < p.len()
    &&& p[i] matches AluOp::LdG { ty: t, item, dst }
    &&& t == g
    &&& a8_at(p, i, item) == Some(0u8)
    &&& a16_at(p, i + 1, 0) == Some(0u16)
    &&& p[i + 1] == AluOp::ExtrA64 { src: dst, dst: 0, offset: 0 }
    &&& p[i + 2] == AluOp::Sas { ty }
    &&& p[i + 3] == AluOp::Test
    &&& errno_at(p, i + 3) == Some(errno)
}

// ---------------------------------------------------------------------------------------------
// The programs.

pub open spec fn genesis_program() -> Seq<AluOp> {
    seq![
        AluOp::PutA8 { reg: 1, value: 0 },
        AluOp::PutA16 { reg: 0, value: 0 },
        // the reported issued supply equals the sum of the asset outputs
        AluOp::PutA8 { reg: 0, value: ERRNO_ISSUED_MISMATCH },
        AluOp::LdG { ty: GS_ISSUED_SUPPLY, item: 1, dst: 0 },
        AluOp::ExtrA64 { src: 0, dst: 0, offset: 0 },
        AluOp::Sas { ty: OS_ASSET },
        AluOp::Test,
        // the inflation rights sum up to the max supply less the issued supply
        AluOp::PutA8 { reg: 0, value: ERRNO_INFLATION_MISMATCH },
        AluOp::LdG { ty: GS_MAX_SUPPLY, item: 1, dst: 1 },
        AluOp::ExtrA64 { src: 1, dst: 1, offset: 0 },
        AluOp::SubUcA64 { src: 1, dst: 0 },
        AluOp::Test,
        AluOp::Sas { ty: OS_INFLATION },
        AluOp::Test,
        AluOp::Ret,
    ]
}

pub open spec fn transfer_program() -> Seq<AluOp> {
    seq![
        // inputs and outputs balance, for assets and for inflation rights
        AluOp::PutA8 { reg: 0, value: ERRNO_NON_EQUAL_IN_OUT },
        AluOp::Svs { ty: OS_ASSET },
        AluOp::Test,
        AluOp::Svs { ty: OS_INFLATION },
        AluOp::Test,
        // as many link rights come out as go in
        AluOp::PutA8 { reg: 0, value: ERRNO_NON_EQUAL_IN_OUT },
        AluOp::CnP { ty: OS_LINK, reg: 0 },
        AluOp::CnS { ty: OS_LINK, reg: 1 },
        AluOp::EqNA16 { a: 0, b: 1 },
        AluOp::Test,
        AluOp::Ret,
    ]
}

pub open spec fn inflation_program() -> Seq<AluOp> {
    seq![
        AluOp::PutA8 { reg: 1, value: 0 },
        AluOp::PutA16 { reg: 0, value: 0 },
        // the reported issued supply equals the sum of the asset outputs
        AluOp::PutA8 { reg: 0, value: ERRNO_ISSUED_MISMATCH },
        AluOp::LdG { ty: GS_ISSUED_SUPPLY, item: 1, dst: 0 },
        AluOp::ExtrA64 { src: 0, dst: 0, offset: 0 },
        AluOp::Sas { ty: OS_ASSET },
        AluOp::Test,
        AluOp::CpyA64 { src: 0, dst: 1 },
        // the reported allowed inflation equals the sum of the inflation rights given out
        AluOp::PutA8 { reg: 0, value: ERRNO_INFLATION_MISMATCH },
        AluOp::LdM { ty: MS_ALLOWED_INFLATION, dst: 0 },
        AluOp::ExtrA64 { src: 0, dst: 0, offset: 0 },
        AluOp::Sas { ty: OS_INFLATION },
        AluOp::Test,
        // the inflation rights spent equal the issued supply plus the allowed inflation
        AluOp::PutA8 { reg: 0, value: ERRNO_INFLATION_EXCEEDS_ALLOWANCE },
        AluOp::AddUcA64 { src: 1, dst: 0 },
        AluOp::Test,
        AluOp::Sps { ty: OS_INFLATION },
        AluOp::Test,
        AluOp::Ret,
    ]
}

pub open spec fn claim_mint_program() -> Seq<AluOp> {
    seq![
        AluOp::PutA8 { reg: 1, value: 0 },
        AluOp::PutA16 { reg: 0, value: 0 },
        // the reported issued supply equals the sum of the minted assets
        AluOp::PutA8 { reg: 0, value: ERRNO_ISSUED_MISMATCH },
        AluOp::LdG { ty: GS_ISSUED_SUPPLY, item: 1, dst: 0 },
        AluOp::ExtrA64 { src: 0, dst: 0, offset: 0 },
        AluOp::Sas { ty: OS_ASSET },
        AluOp::Test,
        // as many claim batons come out as go in
        AluOp::PutA8 { reg: 0, value: ERRNO_NON_EQUAL_IN_OUT },
        AluOp::CnP { ty: OS_CLAIM_BATON, reg: 0 },
        AluOp::CnS { ty: OS_CLAIM_BATON, reg: 1 },
        AluOp::EqNA16 { a: 0, b: 1 },
        AluOp::Test,
        AluOp::Ret,
    ]
}

/// What every script of the schema satisfies.
pub open spec fn script_wf(p: Seq<AluOp>) -> bool {
    &&& program_wf(p)
    &&& ends_with_single_ret(p)
    &&& tests_report_errno(p)
}

fn genesis_script_ops() -> (p: Vec<AluOp>)
    ensures
        p@ == genesis_program(),
{
    let mut p: Vec<AluOp> = Vec::new();
    p.push(AluOp::PutA8 { reg: 1, value: 0 });
    p.push(AluOp::PutA16 { reg: 0, value: 0 });
    // the reported issued supply equals the sum of the asset outputs
    p.push(AluOp::PutA8 { reg: 0, value: ERRNO_ISSUED_MISMATCH });
    p.push(AluOp::LdG { ty: GS_ISSUED_SUPPLY, item: 1, dst: 0 });
    p.push(AluOp::ExtrA64 { src: 0, dst: 0, offset: 0 });
    p.push(AluOp::Sas { ty: OS_ASSET });
    p.push(AluOp::Test);
    // the inflation rights sum up to the max supply less the issued supply
    p.push(AluOp::PutA8 { reg: 0, value: ERRNO_INFLATION_MISMATCH });
    p.push(AluOp::LdG { ty: GS_MAX_SUPPLY, item: 1, dst: 1 });
    p.push(AluOp::ExtrA64 { src: 1, dst: 1, offset: 0 });
    p.push(AluOp::SubUcA64 { src: 1, dst: 0 });
    p.push(AluOp::Test);
    p.push(AluOp::Sas { ty: OS_INFLATION });
    p.push(AluOp::Test);
    p.push(AluOp::Ret);
    assert(p@ =~= genesis_program());
    p
}

fn transfer_script_ops() -> (p: Vec<AluOp>)
    ensures
        p@ == transfer_program(),
{
    let mut p: Vec<AluOp> = Vec::new();
    // inputs and outputs balance, for assets and for inflation rights
    p.push(AluOp::PutA8 { reg: 0, value: ERRNO_NON_EQUAL_IN_OUT });
    p.push(AluOp::Svs { ty: OS_ASSET });
    p.push(AluOp::Test);
    p.push(AluOp::Svs { ty: OS_INFLATION });
    p.push(AluOp::Test);
    // as many link rights come out as go in
    p.push(AluOp::PutA8 { reg: 0, value: ERRNO_NON_EQUAL_IN_OUT });
    p.push(AluOp::CnP { ty: OS_LINK, reg: 0 });
    p.push(AluOp::CnS { ty: OS_LINK, reg: 1 });
    p.push(AluOp::EqNA16 { a: 0, b: 1 });
    p.push(AluOp::Test);
    p.push(AluOp::Ret);
    assert(p@ =~= transfer_program());
    p
}

fn inflation_script_ops() -> (p: Vec<AluOp>)
    ensures
        p@ == inflation_program(),
{
    let mut p: Vec<AluOp> = Vec::new();
    p.push(AluOp::PutA8 { reg: 1, value: 0 });
    p.push(AluOp::PutA16 { reg: 0, value: 0 });
    // the reported issued supply equals the sum of the asset outputs
    p.push(AluOp::PutA8 { reg: 0, value: ERRNO_ISSUED_MISMATCH });
    p.push(AluOp::LdG { ty: GS_ISSUED_SUPPLY, item: 1, dst: 0 });
    p.push(AluOp::ExtrA64 { src: 0, dst: 0, offset: 0 });
    p.push(AluOp::Sas { ty: OS_ASSET });
    p.push(AluOp::Test);
    p.push(AluOp::CpyA64 { src: 0, dst: 1 });
    // the reported allowed inflation equals the sum of the inflation rights given out
    p.push(AluOp::PutA8 { reg: 0, value: ERRNO_INFLATION_MISMATCH });
    p.push(AluOp::LdM { ty: MS_ALLOWED_INFLATION, dst: 0 });
    p.push(AluOp::ExtrA64 { src: 0, dst: 0, offset: 0 });
    p.push(AluOp::Sas { ty: OS_INFLATION });
    p.push(AluOp::Test);
    // the inflation rights spent equal the issued supply plus the allowed inflation
    p.push(AluOp::PutA8 { reg: 0, value: ERRNO_INFLATION_EXCEEDS_ALLOWANCE });
    p.push(AluOp::AddUcA64 { src: 1, dst: 0 });
    p.push(AluOp::Test);
    p.push(AluOp::Sps { ty: OS_INFLATION });
    p.push(AluOp::Test);
    p.push(AluOp::Ret);
    assert(p@ =~= inflation_program());
    p
}

fn claim_mint_script_ops() -> (p: Vec<AluOp>)
    ensures
        p@ == claim_mint_program(),
{
    let mut p: Vec<AluOp> = Vec::new();
    p.push(AluOp::PutA8 { reg: 1, value: 0 });
    p.push(AluOp::PutA16 { reg: 0, value: 0 });
    // the reported issued supply equals the sum of the minted assets
    p.push(AluOp::PutA8 { reg: 0, value: ERRNO_ISSUED_MISMATCH });
    p.push(AluOp::LdG { ty: GS_ISSUED_SUPPLY, item: 1, dst: 0 });
    p.push(AluOp::ExtrA64 { src: 0, dst: 0, offset: 0 });
    p.push(AluOp::Sas { ty: OS_ASSET });
    p.push(AluOp::Test);
    // as many claim batons come out as go in
    p.push(AluOp::PutA8 { reg: 0, value: ERRNO_NON_EQUAL_IN_OUT });
    p.push(AluOp::CnP { ty: OS_CLAIM_BATON, reg: 0 });
    p.push(AluOp::CnS { ty: OS_CLAIM_BATON, reg: 1 });
    p.push(AluOp::EqNA16 { a: 0, b: 1 });
    p.push(AluOp::Test);
    p.push(AluOp::Ret);
    assert(p@ =~= claim_mint_program());
    p
}

// ---------------------------------------------------------------------------------------------
// Checking the programs.

/// `f` holds of every index below `n`, checked index by index.
pub open spec fn all_below(n: nat, f: spec_fn(int) -> bool) -> bool
    decreases n,
{
    n == 0 || (f(n - 1) && all_below((n - 1) as nat, f))
}

pub proof fn lemma_all_below(n: nat, f: spec_fn(int) -> bool)
    requires
        all_below(n, f),
    ensures
        forall|i: int| 0 <= i < n ==> #[trigger] f(i),
    decreases n,
{
    if n > 0 {
        lemma_all_below((n - 1) as nat, f);
    }
}

proof fn lemma_script_wf(p: Seq<AluOp>)
    requires
        p.len() <= 64,
        p.len() > 0,
        p.last() == AluOp::Ret,
        all_below(p.len(), |i: int| op_wf(p[i])),
        all_below((p.len() - 1) as nat, |i: int| p[i] != AluOp::Ret),
        all_below(p.len(), |i: int| p[i] == AluOp::Test ==> errno_at(p, i) is Some),
    ensures
        script_wf(p),
{
    lemma_all_below(p.len(), |i: int| op_wf(p[i]));
    lemma_all_below((p.len() - 1) as nat, |i: int| p[i] != AluOp::Ret);
    lemma_all_below(p.len(), |i: int| p[i] == AluOp::Test ==> errno_at(p, i) is Some);
    assert forall|i: int| 0 <= i < p.len() implies op_wf(#[trigger] p[i]) by {
        let f = |i: int| op_wf(p[i]);
        assert(f(i));
    }
    assert forall|i: int| 0 <= i < p.len() - 1 implies #[trigger] p[i] != AluOp::Ret by {
        let f = |i: int| p[i] != AluOp::Ret;
        assert(f(i));
    }
    assert forall|i: int| 0 <= i < p.len() && #[trigger] p[i] == AluOp::Test implies errno_at(p, i) is Some by {
        let f = |i: int| p[i] == AluOp::Test ==> errno_at(p, i) is Some;
        assert(f(i));
    }
}

proof fn lemma_genesis_program()
    ensures
        script_wf(genesis_program()),
        checks_outputs_sum_to_global_at(genesis_program(), 3, GS_ISSUED_SUPPLY, OS_ASSET, ERRNO_ISSUED_MISMATCH),
{
    let p = genesis_program();
    reveal_with_fuel(all_below, 16);
    reveal_with_fuel(a8_at, 16);
    reveal_with_fuel(a16_at, 6);
    lemma_script_wf(p);
}

proof fn lemma_transfer_program()
    ensures
        script_wf(transfer_program()),
        checks_balance_at(transfer_program(), 1, OS_ASSET, ERRNO_NON_EQUAL_IN_OUT),
        checks_balance_at(transfer_program(), 3, OS_INFLATION, ERRNO_NON_EQUAL_IN_OUT),
        checks_count_at(transfer_program(), 6, OS_LINK, ERRNO_NON_EQUAL_IN_OUT),
{
    let p = transfer_program();
    reveal_with_fuel(all_below, 12);
    reveal_with_fuel(a8_at, 12);
    reveal_with_fuel(a16_at, 6);
    lemma_script_wf(p);
}

proof fn lemma_inflation_program()
    ensures
        script_wf(inflation_program()),
        checks_outputs_sum_to_global_at(inflation_program(), 3, GS_ISSUED_SUPPLY, OS_ASSET, ERRNO_ISSUED_MISMATCH),
        errno_at(inflation_program(), 12) == Some(ERRNO_INFLATION_MISMATCH),
        errno_at(inflation_program(), 15) == Some(ERRNO_INFLATION_EXCEEDS_ALLOWANCE),
        errno_at(inflation_program(), 17) == Some(ERRNO_INFLATION_EXCEEDS_ALLOWANCE),
{
    let p = inflation_program();
    reveal_with_fuel(all_below, 20);
    reveal_with_fuel(a8_at, 20);
    reveal_with_fuel(a16_at, 6);
    lemma_script_wf(p);
}

proof fn lemma_claim_mint_program()
    ensures
        script_wf(claim_mint_program()),
        checks_outputs_sum_to_global_at(claim_mint_program(), 3, GS_ISSUED_SUPPLY, OS_ASSET, ERRNO_ISSUED_MISMATCH),
        checks_count_at(claim_mint_program(), 8, OS_CLAIM_BATON, ERRNO_NON_EQUAL_IN_OUT),
{
    let p = claim_mint_program();
    reveal_with_fuel(all_below, 14);
    reveal_with_fuel(a8_at, 14);
    reveal_with_fuel(a16_at, 6);
    lemma_script_wf(p);
}

proof fn lemma_genesis_tail()
    ensures
        errno_at(genesis_program(), 11) == Some(ERRNO_INFLATION_MISMATCH),
        errno_at(genesis_program(), 13) == Some(ERRNO_INFLATION_MISMATCH),
{
    reveal_with_fuel(a8_at, 16);
    reveal_with_fuel(a16_at, 6);
}

/// The program of a validation script.
pub open spec fn script_program(s: crate::schema::Script) -> Seq<AluOp> {
    match s {
        crate::schema::Script::Genesis => genesis_program(),
        crate::schema::Script::Transfer => transfer_program(),
        crate::schema::Script::Inflation => inflation_program(),
        crate::schema::Script::ClaimMint => claim_mint_program(),
    }
}

/// The genesis script: the reported issued supply equals the sum of the issued assets, and the
/// inflation rights given out sum up to the max supply less the issued supply (the subtraction
/// failing when the issued supply exceeds the max supply).
pub fn genesis_script() -> (p: Vec<AluOp>)
    ensures
        p@ == genesis_program(),
        script_wf(p@),
        checks_outputs_sum_to_global_at(p@, 3, GS_ISSUED_SUPPLY, OS_ASSET, ERRNO_ISSUED_MISMATCH),
        p@[8] == (AluOp::LdG { ty: GS_MAX_SUPPLY, item: 1, dst: 1 }),
        p@[10] == (AluOp::SubUcA64 { src: 1, dst: 0 }),
        p@[11] == AluOp::Test,
        errno_at(p@, 11) == Some(ERRNO_INFLATION_MISMATCH),
        p@[12] == (AluOp::Sas { ty: OS_INFLATION }),
        p@[13] == AluOp::Test,
        errno_at(p@, 13) == Some(ERRNO_INFLATION_MISMATCH),
{
    proof {
        lemma_genesis_program();
        lemma_genesis_tail();
    }
    genesis_script_ops()
}

/// The transfer script: assets and inflation rights balance between inputs and outputs, and as
/// many link rights come out as go in.
pub fn transfer_script() -> (p: Vec<AluOp>)
    ensures
        p@ == transfer_program(),
        script_wf(p@),
        checks_balance_at(p@, 1, OS_ASSET, ERRNO_NON_EQUAL_IN_OUT),
        checks_balance_at(p@, 3, OS_INFLATION, ERRNO_NON_EQUAL_IN_OUT),
        checks_count_at(p@, 6, OS_LINK, ERRNO_NON_EQUAL_IN_OUT),
{
    proof {
        lemma_transfer_program();
    }
    transfer_script_ops()
}

/// The inflation script: the reported issued supply equals the sum of the new assets, the
/// reported allowed inflation equals the sum of the inflation rights given out, and the inflation
/// rights spent equal their sum (the addition failing on overflow).
pub fn inflation_script() -> (p: Vec<AluOp>)
    ensures
        p@ == inflation_program(),
        script_wf(p@),
        checks_outputs_sum_to_global_at(p@, 3, GS_ISSUED_SUPPLY, OS_ASSET, ERRNO_ISSUED_MISMATCH),
        p@[9] == (AluOp::LdM { ty: MS_ALLOWED_INFLATION, dst: 0 }),
        p@[11] == (AluOp::Sas { ty: OS_INFLATION }),
        errno_at(p@, 12) == Some(ERRNO_INFLATION_MISMATCH),
        p@[14] == (AluOp::AddUcA64 { src: 1, dst: 0 }),
        errno_at(p@, 15) == Some(ERRNO_INFLATION_EXCEEDS_ALLOWANCE),
        p@[16] == (AluOp::Sps { ty: OS_INFLATION }),
        errno_at(p@, 17) == Some(ERRNO_INFLATION_EXCEEDS_ALLOWANCE),
{
    proof {
        lemma_inflation_program();
    }
    inflation_script_ops()
}

/// The claim-mint script: the reported issued supply equals the sum of the minted assets, and as
/// many claim batons come out as go in.
pub fn claim_mint_script() -> (p: Vec<AluOp>)
    ensures
        p@ == claim_mint_program(),
        script_wf(p@),
        checks_outputs_sum_to_global_at(p@, 3, GS_ISSUED_SUPPLY, OS_ASSET, ERRNO_ISSUED_MISMATCH),
        checks_count_at(p@, 8, OS_CLAIM_BATON, ERRNO_NON_EQUAL_IN_OUT),
{
    proof {
        lemma_claim_mint_program();
    }
    claim_mint_script_ops()
}

/// The program of script `s`.
pub fn script_ops(s: crate::schema::Script) -> (p: Vec<AluOp>)
    ensures
        p@ == script_program(s),
        script_wf(p@),
{
    match s {
        crate::schema::Script::Genesis => genesis_script(),
        crate::schema::Script::Transfer => transfer_script(),
        crate::schema::Script::Inflation => inflation_script(),
        crate::schema::Script::ClaimMint => claim_mint_script(),
    }
}

} // verus!
