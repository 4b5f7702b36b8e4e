//! What a validation script decides when the RGB virtual machine runs it on an operation.
//!
//! An [`OpContext`] is what an operation offers its script: the owned states it spends and
//! assigns, its global state and its metadata. [`run`] gives the meaning of a program of
//! [`AluOp`]s on such a context, instruction by instruction, and the laws at the end of this file
//! say in closed form what each script of the schema accepts, and which error number it reports
//! for what it rejects.
//!
//! `run` is this crate's own statement of how the RGB virtual machine executes these
//! instructions, written from the AluVM and RGB contract-operation semantics. Nothing ties the
//! assembled library ([`crate::rgb::assembled`]) to `run`: the laws below are proved of this
//! model of the machine, not of the machine itself.

use vstd::prelude::*;

use crate::scripts::{
    claim_mint_program, genesis_program, inflation_program, transfer_program, AluOp,
};
use crate::{
    ERRNO_INFLATION_EXCEEDS_ALLOWANCE, ERRNO_INFLATION_MISMATCH, ERRNO_ISSUED_MISMATCH,
    ERRNO_NON_EQUAL_IN_OUT, GS_ISSUED_SUPPLY, GS_MAX_SUPPLY, MS_ALLOWED_INFLATION, OS_ASSET,
    OS_CLAIM_BATON, OS_INFLATION, OS_LINK,
};

verus! {

/// What an operation offers its validation script.
pub struct OpContext {
    /// The owned states of each type that the operation spends: the amount of a fungible
    /// state, `None` for a state of another kind.
    pub inputs: spec_fn(u16) -> Seq<Option<u64>>,
    /// The owned states of each type that the operation assigns, in the same form.
    pub outputs: spec_fn(u16) -> Seq<Option<u64>>,
    /// The items of each global state type that the operation sets, as bytes.
    pub globals: spec_fn(u16) -> Seq<Seq<u8>>,
    /// The value of each metadata type that the operation carries, as bytes.
    pub metadata: spec_fn(u16) -> Option<Seq<u8>>,
    /// The operation's type, which the virtual machine puts into `a16[0]` before the script
    /// starts (none for a genesis).
    pub op_type: Option<u16>,
}

/// The registers that the scripts use.
pub struct Regs {
    pub a8: spec_fn(u8) -> Option<u8>,
    pub a16: spec_fn(u8) -> Option<u16>,
    pub a64: spec_fn(u8) -> Option<int>,
    pub s16: spec_fn(u8) -> Option<Seq<u8>>,
    pub st0: bool,
}

/// What an instruction leaves the machine to do next.
pub enum Flow {
    /// Go on with the next instruction.
    Next,
    /// Stop; the script's outcome is the status flag.
    Stop,
    /// Stop with a failure.
    Fail,
}

/// The outcome of a validation script.
pub enum Verdict {
    /// The operation is valid.
    Valid,
    /// The operation is rejected, with the error number in `a8[0]`.
    Invalid(Option<u8>),
}

/// The number held by little-endian bytes.
pub open spec fn le_value(b: Seq<u8>) -> int
    decreases b.len(),
{
    if b.len() == 0 {
        0
    } else {
        b[0] + 256 * le_value(b.subrange(1, b.len() as int))
    }
}

/// The sum of the amounts, or `None` where a state is not fungible.
pub open spec fn amounts_sum(s: Seq<Option<u64>>) -> Option<int>
    decreases s.len(),
{
    if s.len() == 0 {
        Some(0)
    } else {
        match (s.last(), amounts_sum(s.drop_last())) {
            (Some(v), Some(rest)) => Some(rest + v),
            _ => None,
        }
    }
}

/// The sum of the states of `ty` that the operation spends, where each is fungible and the sum
/// fits in 64 bits.
pub open spec fn inputs_sum(ctx: OpContext, ty: u16) -> Option<int> {
    match amounts_sum((ctx.inputs)(ty)) {
        Some(sum) => if sum <= u64::MAX {
            Some(sum)
        } else {
            None
        },
        None => None,
    }
}

/// The sum of the states of `ty` that the operation assigns, where each is fungible and not
/// zero, and the sum fits in 64 bits.
pub open spec fn outputs_sum(ctx: OpContext, ty: u16) -> Option<int> {
    let s = (ctx.outputs)(ty);
    match amounts_sum(s) {
        Some(sum) => if sum <= u64::MAX && !s.contains(Some(0u64)) {
            Some(sum)
        } else {
            None
        },
        None => None,
    }
}

// ---------------------------------------------------------------------------------------------
// The machine.

pub open spec fn set_a8(r: Regs, reg: u8, v: Option<u8>) -> Regs {
    Regs { a8: |x: u8| if x == reg { v } else { (r.a8)(x) }, a16: r.a16, a64: r.a64, s16: r.s16, st0: r.st0 }
}

pub open spec fn set_a16(r: Regs, reg: u8, v: Option<u16>) -> Regs {
    Regs { a8: r.a8, a16: |x: u8| if x == reg { v } else { (r.a16)(x) }, a64: r.a64, s16: r.s16, st0: r.st0 }
}

pub open spec fn set_a64(r: Regs, reg: u8, v: Option<int>) -> Regs {
    Regs { a8: r.a8, a16: r.a16, a64: |x: u8| if x == reg { v } else { (r.a64)(x) }, s16: r.s16, st0: r.st0 }
}

pub open spec fn set_s16(r: Regs, reg: u8, v: Option<Seq<u8>>) -> Regs {
    Regs { a8: r.a8, a16: r.a16, a64: r.a64, s16: |x: u8| if x == reg { v } else { (r.s16)(x) }, st0: r.st0 }
}

pub open spec fn set_st0(r: Regs, st0: bool) -> Regs {
    Regs { a8: r.a8, a16: r.a16, a64: r.a64, s16: r.s16, st0 }
}

/// A check of the contract failed: the status flag is cleared and the machine stops.
pub open spec fn contract_failure(r: Regs) -> (Regs, Flow) {
    (set_st0(r, false), Flow::Stop)
}

/// `extr`: read the 64-bit number at the offset in `a16[offset]` of the bytes in `s16[src]`
/// into `a64[dst]`; a read cut short by the end of the bytes clears the status flag.
pub open spec fn extr_a64(r: Regs, src: u8, dst: u8, offset: u8) -> Regs {
    match ((r.s16)(src), (r.a16)(offset)) {
        (Some(s), Some(off)) => if off < s.len() {
            if off + 8 <= s.len() {
                set_a64(r, dst, Some(le_value(s.subrange(off as int, off + 8))))
            } else {
                set_st0(set_a64(r, dst, Some(le_value(s.subrange(off as int, s.len() as int)))), false)
            }
        } else {
            set_st0(set_a64(r, dst, None), false)
        },
        _ => set_st0(set_a64(r, dst, None), false),
    }
}

/// A checked unsigned 64-bit result: `None` where it leaves the range.
pub open spec fn checked_u64(v: int) -> Option<int> {
    if 0 <= v <= u64::MAX {
        Some(v)
    } else {
        None
    }
}

/// One instruction on `r`.
pub open spec fn step(op: AluOp, ctx: OpContext, r: Regs) -> (Regs, Flow) {
    match op {
        AluOp::PutA8 { reg, value } => (set_a8(r, reg, Some(value)), Flow::Next),
        AluOp::PutA16 { reg, value } => (set_a16(r, reg, Some(value)), Flow::Next),
        AluOp::Svs { ty } => match (inputs_sum(ctx, ty), outputs_sum(ctx, ty)) {
            (Some(i), Some(o)) => if i == o {
                (r, Flow::Next)
            } else {
                contract_failure(r)
            },
            _ => contract_failure(r),
        },
        AluOp::Sas { ty } => match ((r.a64)(0), outputs_sum(ctx, ty)) {
            (Some(v), Some(o)) => if v == o {
                (r, Flow::Next)
            } else {
                contract_failure(r)
            },
            _ => contract_failure(r),
        },
        AluOp::Sps { ty } => match ((r.a64)(0), inputs_sum(ctx, ty)) {
            (Some(v), Some(i)) => if v == i {
                (r, Flow::Next)
            } else {
                contract_failure(r)
            },
            _ => contract_failure(r),
        },
        AluOp::CnP { ty, reg } => (set_a16(r, reg, Some((ctx.inputs)(ty).len() as u16)), Flow::Next),
        AluOp::CnS { ty, reg } => (set_a16(r, reg, Some((ctx.outputs)(ty).len() as u16)), Flow::Next),
        AluOp::LdG { ty, item, dst } => match (r.a8)(item) {
            Some(i) => if i < (ctx.globals)(ty).len() {
                (set_s16(r, dst, Some((ctx.globals)(ty)[i as int])), Flow::Next)
            } else {
                contract_failure(r)
            },
            None => contract_failure(r),
        },
        AluOp::LdM { ty, dst } => match (ctx.metadata)(ty) {
            Some(m) => (set_s16(r, dst, Some(m)), Flow::Next),
            None => contract_failure(r),
        },
        AluOp::ExtrA64 { src, dst, offset } => (extr_a64(r, src, dst, offset), Flow::Next),
        AluOp::EqNA16 { a, b } => match ((r.a16)(a), (r.a16)(b)) {
            (Some(x), Some(y)) => (set_st0(r, x == y), Flow::Next),
            _ => (set_st0(r, false), Flow::Next),
        },
        AluOp::AddUcA64 { src, dst } => match ((r.a64)(src), (r.a64)(dst)) {
            (Some(x), Some(y)) => {
                let v = checked_u64(x + y);
                (set_st0(set_a64(r, dst, v), v is Some), Flow::Next)
            },
            _ => (set_st0(set_a64(r, dst, None), false), Flow::Next),
        },
        AluOp::SubUcA64 { src, dst } => match ((r.a64)(src), (r.a64)(dst)) {
            (Some(x), Some(y)) => {
                let v = checked_u64(x - y);
                (set_st0(set_a64(r, dst, v), v is Some), Flow::Next)
            },
            _ => (set_st0(set_a64(r, dst, None), false), Flow::Next),
        },
        AluOp::CpyA64 { src, dst } => (set_st0(set_a64(r, dst, (r.a64)(src)), true), Flow::Next),
        AluOp::Test => if r.st0 {
            (r, Flow::Next)
        } else {
            (r, Flow::Fail)
        },
        AluOp::Ret => (r, Flow::Stop),
    }
}

/// The outcome when the machine stops with registers `r`.
pub open spec fn verdict_of(r: Regs) -> Verdict {
    if r.st0 {
        Verdict::Valid
    } else {
        Verdict::Invalid((r.a8)(0))
    }
}

/// The outcome of running `p` from instruction `pc` with registers `r`.
pub open spec fn exec_from(p: Seq<AluOp>, ctx: OpContext, pc: int, r: Regs) -> Verdict
    decreases p.len() - pc,
{
    if pc < 0 || pc >= p.len() {
        verdict_of(r)
    } else {
        let next = step(p[pc], ctx, r);
        match next.1 {
            Flow::Next => exec_from(p, ctx, pc + 1, next.0),
            Flow::Stop => verdict_of(next.0),
            Flow::Fail => Verdict::Invalid((next.0.a8)(0)),
        }
    }
}

/// The registers when a script starts: all empty but `a16[0]`, which holds the operation type,
/// and the status flag, which is set.
pub open spec fn initial_regs(ctx: OpContext) -> Regs {
    Regs {
        a8: |x: u8| None,
        a16: |x: u8| if x == 0 { ctx.op_type } else { None },
        a64: |x: u8| None,
        s16: |x: u8| None,
        st0: true,
    }
}

/// The outcome of running script `p` on the operation `ctx`.
pub open spec fn run(p: Seq<AluOp>, ctx: OpContext) -> Verdict {
    exec_from(p, ctx, 0, initial_regs(ctx))
}

// ---------------------------------------------------------------------------------------------
// What the scripts decide.

/// The 64-bit number at the start of the first item of global state `g`, if there is one.
pub open spec fn first_global_amount(ctx: OpContext, g: u16) -> Option<int> {
    if (ctx.globals)(g).len() > 0 {
        Some(le_value((ctx.globals)(g)[0].subrange(0, 8)))
    } else {
        None
    }
}

/// The global amounts that a script reads are 64-bit numbers: the first item of `g`, where
/// there is one, has eight bytes or more, as the schema's type for it requires.
pub open spec fn global_amount_wf(ctx: OpContext, g: u16) -> bool {
    (ctx.globals)(g).len() > 0 ==> (ctx.globals)(g)[0].len() >= 8
}

/// The issued supply that the operation reports equals the sum of the assets it assigns.
pub open spec fn issued_matches(ctx: OpContext) -> bool {
    &&& first_global_amount(ctx, GS_ISSUED_SUPPLY) is Some
    &&& outputs_sum(ctx, OS_ASSET) == first_global_amount(ctx, GS_ISSUED_SUPPLY)
}

/// What the genesis script decides.
pub open spec fn genesis_verdict(ctx: OpContext) -> Verdict {
    let issued = first_global_amount(ctx, GS_ISSUED_SUPPLY);
    let max = first_global_amount(ctx, GS_MAX_SUPPLY);
    if !issued_matches(ctx) {
        Verdict::Invalid(Some(ERRNO_ISSUED_MISMATCH))
    } else if !(max is Some && max.unwrap() >= issued.unwrap()
        && outputs_sum(ctx, OS_INFLATION) == Some(max.unwrap() - issued.unwrap())) {
        Verdict::Invalid(Some(ERRNO_INFLATION_MISMATCH))
    } else {
        Verdict::Valid
    }
}

/// The states of `ty` that the operation spends are fungible and sum up, within 64 bits, to
/// the states of `ty` it assigns, none of which is zero.
pub open spec fn balances(ctx: OpContext, ty: u16) -> bool {
    &&& inputs_sum(ctx, ty) is Some
    &&& outputs_sum(ctx, ty) == inputs_sum(ctx, ty)
}

/// The operation spends at most `u16::MAX` states of `ty` and assigns at most as many, as the
/// operation's own limits require.
pub open spec fn count_wf(ctx: OpContext, ty: u16) -> bool {
    &&& (ctx.inputs)(ty).len() <= u16::MAX
    &&& (ctx.outputs)(ty).len() <= u16::MAX
}

/// What the transfer script decides.
pub open spec fn transfer_verdict(ctx: OpContext) -> Verdict {
    if balances(ctx, OS_ASSET) && balances(ctx, OS_INFLATION)
        && (ctx.inputs)(OS_LINK).len() == (ctx.outputs)(OS_LINK).len() {
        Verdict::Valid
    } else {
        Verdict::Invalid(Some(ERRNO_NON_EQUAL_IN_OUT))
    }
}

/// The 64-bit number at the start of the value of metadata `m`, if the operation carries it.
pub open spec fn metadata_amount(ctx: OpContext, m: u16) -> Option<int> {
    match (ctx.metadata)(m) {
        Some(b) => Some(le_value(b.subrange(0, 8))),
        None => None,
    }
}

/// The value of metadata `m`, where the operation carries it, has eight bytes or more, as the
/// schema's type for it requires.
pub open spec fn metadata_amount_wf(ctx: OpContext, m: u16) -> bool {
    (ctx.metadata)(m) matches Some(b) ==> b.len() >= 8
}

/// What the inflation script decides.
pub open spec fn inflation_verdict(ctx: OpContext) -> Verdict {
    let issued = first_global_amount(ctx, GS_ISSUED_SUPPLY);
    let allowed = metadata_amount(ctx, MS_ALLOWED_INFLATION);
    if !issued_matches(ctx) {
        Verdict::Invalid(Some(ERRNO_ISSUED_MISMATCH))
    } else if !(allowed is Some && outputs_sum(ctx, OS_INFLATION) == allowed) {
        Verdict::Invalid(Some(ERRNO_INFLATION_MISMATCH))
    } else if !(issued.unwrap() + allowed.unwrap() <= u64::MAX
        && inputs_sum(ctx, OS_INFLATION) == Some(issued.unwrap() + allowed.unwrap())) {
        Verdict::Invalid(Some(ERRNO_INFLATION_EXCEEDS_ALLOWANCE))
    } else {
        Verdict::Valid
    }
}

/// What the claim-mint script decides.
pub open spec fn claim_mint_verdict(ctx: OpContext) -> Verdict {
    if !issued_matches(ctx) {
        Verdict::Invalid(Some(ERRNO_ISSUED_MISMATCH))
    } else if (ctx.inputs)(OS_CLAIM_BATON).len() != (ctx.outputs)(OS_CLAIM_BATON).len() {
        Verdict::Invalid(Some(ERRNO_NON_EQUAL_IN_OUT))
    } else {
        Verdict::Valid
    }
}

/// `256` to the power `n`.
pub open spec fn pow256(n: nat) -> int
    decreases n,
{
    if n == 0 {
        1
    } else {
        256 * pow256((n - 1) as nat)
    }
}

proof fn lemma_le_value_range(b: Seq<u8>)
    ensures
        0 <= le_value(b) < pow256(b.len()),
    decreases b.len(),
{
    if b.len() > 0 {
        let rest = b.subrange(1, b.len() as int);
        lemma_le_value_range(rest);
        let x = b[0] as int;
        let y = le_value(rest);
        let m = pow256(rest.len());
        assert(0 <= x + 256 * y < 256 * m) by (nonlinear_arith)
            requires
                0 <= x < 256,
                0 <= y < m,
        ;
    }
}

/// Eight little-endian bytes hold a 64-bit number.
proof fn lemma_le_value_u64(b: Seq<u8>)
    requires
        b.len() == 8,
    ensures
        0 <= le_value(b) <= u64::MAX,
{
    lemma_le_value_range(b);
    reveal_with_fuel(pow256, 9);
}

/// A global amount that the scripts read is a 64-bit number.
proof fn lemma_first_global_amount(ctx: OpContext, g: u16)
    requires
        global_amount_wf(ctx, g),
        (ctx.globals)(g).len() > 0,
    ensures
        0 <= first_global_amount(ctx, g).unwrap() <= u64::MAX,
{
    lemma_le_value_u64((ctx.globals)(g)[0].subrange(0, 8));
}

proof fn lemma_step_next(p: Seq<AluOp>, ctx: OpContext, pc: int, r: Regs)
    requires
        0 <= pc < p.len(),
        step(p[pc], ctx, r).1 is Next,
    ensures
        exec_from(p, ctx, pc, r) == exec_from(p, ctx, pc + 1, step(p[pc], ctx, r).0),
{
}

/// The check of the issued supply that opens the genesis, inflation and claim-mint scripts: it
/// rejects with the error number for the issued supply, or leaves the registers holding the
/// issued supply in `a64[0]` and the item index 0 in `a8[1]`, with the status flag set.
proof fn lemma_issued_prefix(p: Seq<AluOp>, ctx: OpContext) -> (r: Regs)
    requires
        p.len() > 7,
        p.subrange(0, 7) == genesis_program().subrange(0, 7),
        global_amount_wf(ctx, GS_ISSUED_SUPPLY),
    ensures
        !issued_matches(ctx) ==> run(p, ctx) == Verdict::Invalid(Some(ERRNO_ISSUED_MISMATCH)),
        issued_matches(ctx) ==> {
            &&& run(p, ctx) == exec_from(p, ctx, 7, r)
            &&& (r.a8)(1) == Some(0u8)
            &&& (r.a16)(0) == Some(0u16)
            &&& (r.a64)(0) == first_global_amount(ctx, GS_ISSUED_SUPPLY)
            &&& r.st0
        },
{
    let q = genesis_program();
    assert(p[0] == q.subrange(0, 7)[0]);
    assert(p[1] == q.subrange(0, 7)[1]);
    assert(p[2] == q.subrange(0, 7)[2]);
    assert(p[3] == q.subrange(0, 7)[3]);
    assert(p[4] == q.subrange(0, 7)[4]);
    assert(p[5] == q.subrange(0, 7)[5]);
    assert(p[6] == q.subrange(0, 7)[6]);
    let r0 = initial_regs(ctx);
    lemma_step_next(p, ctx, 0, r0);
    let r1 = step(p[0], ctx, r0).0;
    lemma_step_next(p, ctx, 1, r1);
    let r2 = step(p[1], ctx, r1).0;
    lemma_step_next(p, ctx, 2, r2);
    let r3 = step(p[2], ctx, r2).0;
    assert((r3.a8)(1) == Some(0u8));
    assert((r3.a8)(0) == Some(ERRNO_ISSUED_MISMATCH));
    assert((r3.a16)(0) == Some(0u16));
    assert(r3.st0);
    if (ctx.globals)(GS_ISSUED_SUPPLY).len() == 0 {
        assert(exec_from(p, ctx, 3, r3) == Verdict::Invalid(Some(ERRNO_ISSUED_MISMATCH)));
        r3
    } else {
        lemma_step_next(p, ctx, 3, r3);
        let r4 = step(p[3], ctx, r3).0;
        assert((r4.s16)(0) == Some((ctx.globals)(GS_ISSUED_SUPPLY)[0]));
        lemma_step_next(p, ctx, 4, r4);
        let r5 = step(p[4], ctx, r4).0;
        assert((r5.a64)(0) == first_global_amount(ctx, GS_ISSUED_SUPPLY));
        assert(r5.st0);
        assert((r5.a8)(0) == Some(ERRNO_ISSUED_MISMATCH));
        if !issued_matches(ctx) {
            assert(exec_from(p, ctx, 5, r5) == Verdict::Invalid(Some(ERRNO_ISSUED_MISMATCH)));
            r5
        } else {
            lemma_step_next(p, ctx, 5, r5);
            let r6 = step(p[5], ctx, r5).0;
            lemma_step_next(p, ctx, 6, r6);
            step(p[6], ctx, r6).0
        }
    }
}

/// The genesis script accepts an operation exactly when the issued supply it reports equals the
/// assets it issues and the inflation rights it gives out sum up to the max supply less the
/// issued supply; it rejects one whose issued supply does not match with the error number for
/// that, and one whose inflation rights do not match with the error number for inflation.
pub proof fn genesis_script_decides(ctx: OpContext)
    requires
        global_amount_wf(ctx, GS_ISSUED_SUPPLY),
        global_amount_wf(ctx, GS_MAX_SUPPLY),
    ensures
        run(genesis_program(), ctx) == genesis_verdict(ctx),
{
    let p = genesis_program();
    let r7 = lemma_issued_prefix(p, ctx);
    if issued_matches(ctx) {
        let issued = first_global_amount(ctx, GS_ISSUED_SUPPLY).unwrap();
        lemma_step_next(p, ctx, 7, r7);
        let r8 = step(p[7], ctx, r7).0;
        assert((r8.a8)(0) == Some(ERRNO_INFLATION_MISMATCH));
        if (ctx.globals)(GS_MAX_SUPPLY).len() == 0 {
            assert(exec_from(p, ctx, 8, r8) == Verdict::Invalid(Some(ERRNO_INFLATION_MISMATCH)));
        } else {
            let max = first_global_amount(ctx, GS_MAX_SUPPLY).unwrap();
            lemma_first_global_amount(ctx, GS_MAX_SUPPLY);
            lemma_first_global_amount(ctx, GS_ISSUED_SUPPLY);
            lemma_step_next(p, ctx, 8, r8);
            let r9 = step(p[8], ctx, r8).0;
            lemma_step_next(p, ctx, 9, r9);
            let r10 = step(p[9], ctx, r9).0;
            assert((r10.a64)(1) == Some(max));
            assert((r10.a64)(0) == Some(issued));
            lemma_step_next(p, ctx, 10, r10);
            let r11 = step(p[10], ctx, r10).0;
            assert((r11.a8)(0) == Some(ERRNO_INFLATION_MISMATCH));
            if max < issued {
                assert(!r11.st0);
                assert(exec_from(p, ctx, 11, r11) == Verdict::Invalid(Some(ERRNO_INFLATION_MISMATCH)));
            } else {
                assert((r11.a64)(0) == Some(max - issued));
                lemma_step_next(p, ctx, 11, r11);
                let r12 = step(p[11], ctx, r11).0;
                if outputs_sum(ctx, OS_INFLATION) != Some(max - issued) {
                    assert(exec_from(p, ctx, 12, r12) == Verdict::Invalid(Some(ERRNO_INFLATION_MISMATCH)));
                } else {
                    lemma_step_next(p, ctx, 12, r12);
                    let r13 = step(p[12], ctx, r12).0;
                    lemma_step_next(p, ctx, 13, r13);
                    let r14 = step(p[13], ctx, r13).0;
                    assert(r14.st0);
                    assert(exec_from(p, ctx, 14, r14) == Verdict::Valid);
                }
            }
        }
    }
}

/// The transfer script accepts an operation exactly when its assets and its inflation rights
/// each balance between what it spends and what it assigns, and it assigns as many link rights
/// as it spends; it rejects any other with the error number for unequal inputs and outputs.
pub proof fn transfer_script_decides(ctx: OpContext)
    requires
        count_wf(ctx, OS_LINK),
    ensures
        run(transfer_program(), ctx) == transfer_verdict(ctx),
{
    let p = transfer_program();
    let r0 = initial_regs(ctx);
    lemma_step_next(p, ctx, 0, r0);
    let r1 = step(p[0], ctx, r0).0;
    assert((r1.a8)(0) == Some(ERRNO_NON_EQUAL_IN_OUT));
    assert(r1.st0);
    if !balances(ctx, OS_ASSET) {
        assert(exec_from(p, ctx, 1, r1) == Verdict::Invalid(Some(ERRNO_NON_EQUAL_IN_OUT)));
    } else {
        lemma_step_next(p, ctx, 1, r1);
        let r2 = step(p[1], ctx, r1).0;
        lemma_step_next(p, ctx, 2, r2);
        let r3 = step(p[2], ctx, r2).0;
        if !balances(ctx, OS_INFLATION) {
            assert(exec_from(p, ctx, 3, r3) == Verdict::Invalid(Some(ERRNO_NON_EQUAL_IN_OUT)));
        } else {
            lemma_step_next(p, ctx, 3, r3);
            let r4 = step(p[3], ctx, r3).0;
            lemma_step_next(p, ctx, 4, r4);
            let r5 = step(p[4], ctx, r4).0;
            lemma_step_next(p, ctx, 5, r5);
            let r6 = step(p[5], ctx, r5).0;
            lemma_step_next(p, ctx, 6, r6);
            let r7 = step(p[6], ctx, r6).0;
            lemma_step_next(p, ctx, 7, r7);
            let r8 = step(p[7], ctx, r7).0;
            let n_in = (ctx.inputs)(OS_LINK).len();
            let n_out = (ctx.outputs)(OS_LINK).len();
            assert((r8.a16)(0) == Some(n_in as u16));
            assert((r8.a16)(1) == Some(n_out as u16));
            assert((n_in as u16 == n_out as u16) == (n_in == n_out));
            lemma_step_next(p, ctx, 8, r8);
            let r9 = step(p[8], ctx, r8).0;
            assert(r9.st0 == (n_in == n_out));
            assert((r9.a8)(0) == Some(ERRNO_NON_EQUAL_IN_OUT));
            if n_in == n_out {
                lemma_step_next(p, ctx, 9, r9);
                let r10 = step(p[9], ctx, r9).0;
                assert(exec_from(p, ctx, 10, r10) == Verdict::Valid);
            } else {
                assert(exec_from(p, ctx, 9, r9) == Verdict::Invalid(Some(ERRNO_NON_EQUAL_IN_OUT)));
            }
        }
    }
}

/// The inflation script accepts an operation exactly when the issued supply it reports equals
/// the new assets, the allowed inflation it reports equals the inflation rights it gives out,
/// and the inflation rights it spends equal the issued supply plus the allowed inflation; a
/// failing check rejects it with that check's error number.
pub proof fn inflation_script_decides(ctx: OpContext)
    requires
        global_amount_wf(ctx, GS_ISSUED_SUPPLY),
        metadata_amount_wf(ctx, MS_ALLOWED_INFLATION),
    ensures
        run(inflation_program(), ctx) == inflation_verdict(ctx),
{
    let p = inflation_program();
    assert(p.subrange(0, 7) =~= genesis_program().subrange(0, 7));
    let r7 = lemma_issued_prefix(p, ctx);
    if issued_matches(ctx) {
        let issued = first_global_amount(ctx, GS_ISSUED_SUPPLY).unwrap();
        lemma_first_global_amount(ctx, GS_ISSUED_SUPPLY);
        lemma_step_next(p, ctx, 7, r7);
        let r8 = step(p[7], ctx, r7).0;
        assert((r8.a64)(1) == Some(issued));
        lemma_step_next(p, ctx, 8, r8);
        let r9 = step(p[8], ctx, r8).0;
        assert((r9.a8)(0) == Some(ERRNO_INFLATION_MISMATCH));
        assert(r9.st0);
        if (ctx.metadata)(MS_ALLOWED_INFLATION) is None {
            assert(exec_from(p, ctx, 9, r9) == Verdict::Invalid(Some(ERRNO_INFLATION_MISMATCH)));
        } else {
            let m = (ctx.metadata)(MS_ALLOWED_INFLATION).unwrap();
            let allowed = metadata_amount(ctx, MS_ALLOWED_INFLATION).unwrap();
            lemma_le_value_u64(m.subrange(0, 8));
            lemma_step_next(p, ctx, 9, r9);
            let r10 = step(p[9], ctx, r9).0;
            lemma_step_next(p, ctx, 10, r10);
            let r11 = step(p[10], ctx, r10).0;
            assert((r11.a64)(0) == Some(allowed));
            assert((r11.a64)(1) == Some(issued));
            assert(r11.st0);
            if outputs_sum(ctx, OS_INFLATION) != Some(allowed) {
                assert(exec_from(p, ctx, 11, r11) == Verdict::Invalid(Some(ERRNO_INFLATION_MISMATCH)));
            } else {
                lemma_step_next(p, ctx, 11, r11);
                let r12 = step(p[11], ctx, r11).0;
                lemma_step_next(p, ctx, 12, r12);
                let r13 = step(p[12], ctx, r12).0;
                lemma_step_next(p, ctx, 13, r13);
                let r14 = step(p[13], ctx, r13).0;
                assert((r14.a8)(0) == Some(ERRNO_INFLATION_EXCEEDS_ALLOWANCE));
                lemma_step_next(p, ctx, 14, r14);
                let r15 = step(p[14], ctx, r14).0;
                assert((r15.a8)(0) == Some(ERRNO_INFLATION_EXCEEDS_ALLOWANCE));
                if issued + allowed > u64::MAX {
                    assert(!r15.st0);
                    assert(exec_from(p, ctx, 15, r15) == Verdict::Invalid(Some(ERRNO_INFLATION_EXCEEDS_ALLOWANCE)));
                } else {
                    assert((r15.a64)(0) == Some(issued + allowed));
                    assert(r15.st0);
                    lemma_step_next(p, ctx, 15, r15);
                    let r16 = step(p[15], ctx, r15).0;
                    if inputs_sum(ctx, OS_INFLATION) != Some(issued + allowed) {
                        assert(exec_from(p, ctx, 16, r16) == Verdict::Invalid(Some(ERRNO_INFLATION_EXCEEDS_ALLOWANCE)));
                    } else {
                        lemma_step_next(p, ctx, 16, r16);
                        let r17 = step(p[16], ctx, r16).0;
                        lemma_step_next(p, ctx, 17, r17);
                        let r18 = step(p[17], ctx, r17).0;
                        assert(exec_from(p, ctx, 18, r18) == Verdict::Valid);
                    }
                }
            }
        }
    }
}

/// The claim-mint script accepts an operation exactly when the issued supply it reports equals
/// the assets it mints and it assigns as many claim batons as it spends; it rejects one whose
/// issued supply does not match with the error number for that, and one whose batons do not
/// match with the error number for unequal inputs and outputs.
pub proof fn claim_mint_script_decides(ctx: OpContext)
    requires
        global_amount_wf(ctx, GS_ISSUED_SUPPLY),
        count_wf(ctx, OS_CLAIM_BATON),
    ensures
        run(claim_mint_program(), ctx) == claim_mint_verdict(ctx),
{
    let p = claim_mint_program();
    assert(p.subrange(0, 7) =~= genesis_program().subrange(0, 7));
    let r7 = lemma_issued_prefix(p, ctx);
    if issued_matches(ctx) {
        lemma_step_next(p, ctx, 7, r7);
        let r8 = step(p[7], ctx, r7).0;
        lemma_step_next(p, ctx, 8, r8);
        let r9 = step(p[8], ctx, r8).0;
        lemma_step_next(p, ctx, 9, r9);
        let r10 = step(p[9], ctx, r9).0;
        let n_in = (ctx.inputs)(OS_CLAIM_BATON).len();
        let n_out = (ctx.outputs)(OS_CLAIM_BATON).len();
        assert((r10.a16)(0) == Some(n_in as u16));
        assert((r10.a16)(1) == Some(n_out as u16));
        assert((n_in as u16 == n_out as u16) == (n_in == n_out));
        lemma_step_next(p, ctx, 10, r10);
        let r11 = step(p[10], ctx, r10).0;
        assert(r11.st0 == (n_in == n_out));
        assert((r11.a8)(0) == Some(ERRNO_NON_EQUAL_IN_OUT));
        if n_in == n_out {
            lemma_step_next(p, ctx, 11, r11);
            let r12 = step(p[11], ctx, r11).0;
            assert(exec_from(p, ctx, 12, r12) == Verdict::Valid);
        } else {
            assert(exec_from(p, ctx, 11, r11) == Verdict::Invalid(Some(ERRNO_NON_EQUAL_IN_OUT)));
        }
    }
}

} // verus!
