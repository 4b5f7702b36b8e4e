//! The boundary with the RGB and AluVM libraries.
//!
//! Every item marked `external_body` here makes one call into `rgbstd`, `aluvm` or
//! `strict_types`, and its contract is trusted, not proved. Results that the libraries compute
//! from their arguments alone (hashes, assembled code, schema structures) are given names; the
//! verified code of the crate states its results over these names.

use vstd::prelude::*;

use aluvm::data::MaybeNumber;
use aluvm::isa::{ArithmeticOp, BytesOp, CmpOp, ControlFlowOp, Instr, IntFlags, MoveOp, NoneEqFlag, PutOp};
use aluvm::library::{Lib, LibId, LibSite};
use aluvm::reg::{NumericRegister, Reg16, Reg32, RegA, RegAR, RegS};
use amplify::num::{u4, u5};
use amplify::ByteArray;
use amplify::confinement::Confined;
use rgbstd::persistence::MemContract;
use rgbstd::rgbcore::stl::rgb_contract_id_stl;
use rgbstd::rgbcore::Ffv;
use rgbstd::schema::{
    AssignmentDetails, FungibleType, GenesisSchema, GlobalDetails, GlobalStateSchema, MetaDetails,
    Occurrences, OwnedStateSchema, TransitionDetails, TransitionSchema,
};
use rgbstd::stl::{AssetSpec, ContractTerms, Details, RejectListUrl, StandardTypes};
use rgbstd::vm::{ContractOp, RgbIsa};
use rgbstd::{
    Amount, AssignmentType, ContractId, GlobalStateType, MetaType, Schema, TransitionType,
};
use strict_types::{FieldName, SemId, StrictVal, TypeName, TypeSystem};

use crate::schema::{is_field_name, is_type_name, Occurs, OwnedKind};
use crate::scripts::AluOp;

verus! {

// ---------------------------------------------------------------------------------------------
// Outside types.

#[verifier::external_type_specification]
#[verifier::external_body]
pub struct ExSchema(Schema);

#[verifier::external_type_specification]
#[verifier::external_body]
pub struct ExMetaType(MetaType);

#[verifier::external_type_specification]
#[verifier::external_body]
pub struct ExGlobalStateType(GlobalStateType);

#[verifier::external_type_specification]
#[verifier::external_body]
pub struct ExAssignmentType(AssignmentType);

#[verifier::external_type_specification]
#[verifier::external_body]
pub struct ExTransitionType(TransitionType);

#[verifier::external_type_specification]
#[verifier::external_body]
pub struct ExMetaDetails(MetaDetails);

#[verifier::external_type_specification]
#[verifier::external_body]
pub struct ExGlobalDetails(GlobalDetails);

#[verifier::external_type_specification]
#[verifier::external_body]
pub struct ExGlobalStateSchema(GlobalStateSchema);

#[verifier::external_type_specification]
#[verifier::external_body]
pub struct ExAssignmentDetails(AssignmentDetails);

#[verifier::external_type_specification]
#[verifier::external_body]
pub struct ExOwnedStateSchema(OwnedStateSchema);

#[verifier::external_type_specification]
#[verifier::external_body]
pub struct ExOccurrences(Occurrences);

#[verifier::external_type_specification]
#[verifier::external_body]
pub struct ExGenesisSchema(GenesisSchema);

#[verifier::external_type_specification]
#[verifier::external_body]
pub struct ExTransitionSchema(TransitionSchema);

#[verifier::external_type_specification]
#[verifier::external_body]
pub struct ExTransitionDetails(TransitionDetails);

#[verifier::external_type_specification]
#[verifier::external_body]
pub struct ExLib(Lib);

#[verifier::external_type_specification]
#[verifier::external_body]
pub struct ExLibId(LibId);

#[verifier::external_type_specification]
#[verifier::external_body]
pub struct ExLibSite(LibSite);

#[verifier::external_type_specification]
#[verifier::external_body]
pub struct ExSemId(SemId);

#[verifier::external_type_specification]
#[verifier::external_body]
pub struct ExFieldName(FieldName);

#[verifier::external_type_specification]
#[verifier::external_body]
pub struct ExTypeName(TypeName);

#[verifier::external_type_specification]
#[verifier::external_body]
pub struct ExStandardTypes(StandardTypes);

#[verifier::external_type_specification]
#[verifier::external_body]
pub struct ExTypeSystem(TypeSystem);

#[verifier::external_type_specification]
#[verifier::external_body]
pub struct ExStrictVal(StrictVal);

#[verifier::external_type_specification]
#[verifier::external_body]
pub struct ExAssetSpec(AssetSpec);

#[verifier::external_type_specification]
#[verifier::external_body]
pub struct ExContractTerms(ContractTerms);

#[verifier::external_type_specification]
#[verifier::external_body]
pub struct ExRejectListUrl(RejectListUrl);

#[verifier::external_type_specification]
#[verifier::external_body]
pub struct ExDetails(Details);

#[verifier::external_type_specification]
#[verifier::external_body]
pub struct ExAmount(Amount);

#[verifier::external_type_specification]
#[verifier::external_body]
pub struct ExContractId(ContractId);

// ---------------------------------------------------------------------------------------------
// Validation code.

/// An AluVM program under construction, for the RGB instruction set.
///
/// AluVM's instruction type is generic over a bound that Verus cannot take, so the buffer is
/// opaque; [`code_ops`] names the operations it holds.
#[verifier::external_body]
pub struct RgbCode {
    code: Vec<Instr<RgbIsa<MemContract>>>,
}

/// The operations that a code buffer holds, in order: each instruction taken as the [`AluOp`]
/// it was built from.
pub uninterp spec fn code_ops(c: RgbCode) -> Seq<AluOp>;

/// The library that `aluvm::library::Lib::assemble` produces from the RGB instructions that the
/// operations `p` stand for.
pub uninterp spec fn assembled(p: Seq<AluOp>) -> Lib;

/// The id that `Lib::id` computes for a library.
pub uninterp spec fn lib_id_of(lib: Lib) -> LibId;

/// The site `LibSite::with(pos, id)`: offset `pos` of library `id`.
pub uninterp spec fn lib_site_of(pos: u16, id: LibId) -> LibSite;

impl RgbCode {
    /// An empty buffer.
    #[verifier::external_body]
    pub(crate) fn new() -> (r: RgbCode)
        ensures
            code_ops(r) == Seq::<AluOp>::empty(),
    {
        RgbCode { code: Vec::new() }
    }

    /// Appends `put a8[reg],value` (`PutOp::PutA` with the value shaped to 8 bits).
    #[verifier::external_body]
    pub(crate) fn put_a8(&mut self, reg: u8, value: u8)
        requires
            reg < 32,
        ensures
            code_ops(*final(self)) == code_ops(*old(self)).push(AluOp::PutA8 { reg, value }),
    {
        let mut num = MaybeNumber::from(value);
        num.reshape(RegA::A8.layout());
        self.code.push(Instr::Put(PutOp::PutA(RegA::A8, Reg32::ALL[reg as usize], Box::new(num))));
    }

    /// Appends `put a16[reg],value` (`PutOp::PutA` with the value shaped to 16 bits).
    #[verifier::external_body]
    pub(crate) fn put_a16(&mut self, reg: u8, value: u16)
        requires
            reg < 32,
        ensures
            code_ops(*final(self)) == code_ops(*old(self)).push(AluOp::PutA16 { reg, value }),
    {
        let mut num = MaybeNumber::from(value);
        num.reshape(RegA::A16.layout());
        self.code.push(Instr::Put(PutOp::PutA(RegA::A16, Reg32::ALL[reg as usize], Box::new(num))));
    }

    /// Appends `svs ty` (`ContractOp::Svs`).
    #[verifier::external_body]
    pub(crate) fn svs(&mut self, ty: u16)
        ensures
            code_ops(*final(self)) == code_ops(*old(self)).push(AluOp::Svs { ty }),
    {
        self.code.push(Instr::ExtensionCodes(RgbIsa::Contract(ContractOp::Svs(AssignmentType::with(ty)))));
    }

    /// Appends `sas ty` (`ContractOp::Sas`).
    #[verifier::external_body]
    pub(crate) fn sas(&mut self, ty: u16)
        ensures
            code_ops(*final(self)) == code_ops(*old(self)).push(AluOp::Sas { ty }),
    {
        self.code.push(Instr::ExtensionCodes(RgbIsa::Contract(ContractOp::Sas(AssignmentType::with(ty)))));
    }

    /// Appends `sps ty` (`ContractOp::Sps`).
    #[verifier::external_body]
    pub(crate) fn sps(&mut self, ty: u16)
        ensures
            code_ops(*final(self)) == code_ops(*old(self)).push(AluOp::Sps { ty }),
    {
        self.code.push(Instr::ExtensionCodes(RgbIsa::Contract(ContractOp::Sps(AssignmentType::with(ty)))));
    }

    /// Appends `cnp ty,a16[reg]` (`ContractOp::CnP`).
    #[verifier::external_body]
    pub(crate) fn cnp(&mut self, ty: u16, reg: u8)
        requires
            reg < 32,
        ensures
            code_ops(*final(self)) == code_ops(*old(self)).push(AluOp::CnP { ty, reg }),
    {
        self.code.push(Instr::ExtensionCodes(RgbIsa::Contract(ContractOp::CnP(AssignmentType::with(ty), Reg32::from(u5::with(reg))))));
    }

    /// Appends `cns ty,a16[reg]` (`ContractOp::CnS`).
    #[verifier::external_body]
    pub(crate) fn cns(&mut self, ty: u16, reg: u8)
        requires
            reg < 32,
        ensures
            code_ops(*final(self)) == code_ops(*old(self)).push(AluOp::CnS { ty, reg }),
    {
        self.code.push(Instr::ExtensionCodes(RgbIsa::Contract(ContractOp::CnS(AssignmentType::with(ty), Reg32::from(u5::with(reg))))));
    }

    /// Appends `ldg ty,a8[item],s16[dst]` (`ContractOp::LdG`).
    #[verifier::external_body]
    pub(crate) fn ldg(&mut self, ty: u16, item: u8, dst: u8)
        requires
            item < 16,
            dst < 16,
        ensures
            code_ops(*final(self)) == code_ops(*old(self)).push(AluOp::LdG { ty, item, dst }),
    {
        self.code.push(Instr::ExtensionCodes(RgbIsa::Contract(ContractOp::LdG(GlobalStateType::with(ty), Reg16::from(u4::with(item)), RegS::from(dst)))));
    }

    /// Appends `ldm ty,s16[dst]` (`ContractOp::LdM`).
    #[verifier::external_body]
    pub(crate) fn ldm(&mut self, ty: u16, dst: u8)
        requires
            dst < 16,
        ensures
            code_ops(*final(self)) == code_ops(*old(self)).push(AluOp::LdM { ty, dst }),
    {
        self.code.push(Instr::ExtensionCodes(RgbIsa::Contract(ContractOp::LdM(MetaType::with(ty), RegS::from(dst)))));
    }

    /// Appends `extr s16[src],a64[dst],a16[offset]` (`BytesOp::Extr`).
    #[verifier::external_body]
    pub(crate) fn extr_a64(&mut self, src: u8, dst: u8, offset: u8)
        requires
            src < 16,
            dst < 16,
            offset < 16,
        ensures
            code_ops(*final(self)) == code_ops(*old(self)).push(AluOp::ExtrA64 { src, dst, offset }),
    {
        self.code.push(Instr::Bytes(BytesOp::Extr(RegS::from(src), RegAR::A(RegA::A64), Reg16::ALL[dst as usize], Reg16::ALL[offset as usize])));
    }

    /// Appends `eq.n a16[a],a16[b]` (`CmpOp::EqA` with `NoneEqFlag::NonEqual`).
    #[verifier::external_body]
    pub(crate) fn eq_n_a16(&mut self, a: u8, b: u8)
        requires
            a < 32,
            b < 32,
        ensures
            code_ops(*final(self)) == code_ops(*old(self)).push(AluOp::EqNA16 { a, b }),
    {
        self.code.push(Instr::Cmp(CmpOp::EqA(NoneEqFlag::NonEqual, RegA::A16, Reg32::ALL[a as usize], Reg32::ALL[b as usize])));
    }

    /// Appends `add.uc a64[src],a64[dst]` (`ArithmeticOp::AddA`, unsigned and checked).
    #[verifier::external_body]
    pub(crate) fn add_uc_a64(&mut self, src: u8, dst: u8)
        requires
            src < 32,
            dst < 32,
        ensures
            code_ops(*final(self)) == code_ops(*old(self)).push(AluOp::AddUcA64 { src, dst }),
    {
        self.code.push(Instr::Arithmetic(ArithmeticOp::AddA(IntFlags::unsigned_checked(), RegA::A64, Reg32::ALL[src as usize], Reg32::ALL[dst as usize])));
    }

    /// Appends `sub.uc a64[src],a64[dst]` (`ArithmeticOp::SubA`, unsigned and checked).
    #[verifier::external_body]
    pub(crate) fn sub_uc_a64(&mut self, src: u8, dst: u8)
        requires
            src < 32,
            dst < 32,
        ensures
            code_ops(*final(self)) == code_ops(*old(self)).push(AluOp::SubUcA64 { src, dst }),
    {
        self.code.push(Instr::Arithmetic(ArithmeticOp::SubA(IntFlags::unsigned_checked(), RegA::A64, Reg32::ALL[src as usize], Reg32::ALL[dst as usize])));
    }

    /// Appends `cpy a64[src],a64[dst]` (`MoveOp::CpyA`).
    #[verifier::external_body]
    pub(crate) fn cpy_a64(&mut self, src: u8, dst: u8)
        requires
            src < 32,
            dst < 32,
        ensures
            code_ops(*final(self)) == code_ops(*old(self)).push(AluOp::CpyA64 { src, dst }),
    {
        self.code.push(Instr::Move(MoveOp::CpyA(RegA::A64, Reg32::ALL[src as usize], RegA::A64, Reg32::ALL[dst as usize])));
    }

    /// Appends `test` (`ControlFlowOp::Test`).
    #[verifier::external_body]
    pub(crate) fn test(&mut self)
        ensures
            code_ops(*final(self)) == code_ops(*old(self)).push(AluOp::Test),
    {
        self.code.push(Instr::ControlFlow(ControlFlowOp::Test));
    }

    /// Appends `ret` (`ControlFlowOp::Ret`).
    #[verifier::external_body]
    pub(crate) fn ret(&mut self)
        ensures
            code_ops(*final(self)) == code_ops(*old(self)).push(AluOp::Ret),
    {
        self.code.push(Instr::ControlFlow(ControlFlowOp::Ret));
    }

    /// Assembles the buffer with `Lib::assemble`.
    ///
    /// Assembly fails only when a code or data segment would exceed 65535 bytes or more than 255
    /// libraries are called; none of the instructions built here calls a library, and each
    /// encodes to a few bytes of code and at most two bytes of data, so 64 of them always
    /// assemble.
    #[verifier::external_body]
    pub(crate) fn assemble(&self) -> (r: Lib)
        requires
            code_ops(*self).len() <= 64,
        ensures
            r == assembled(code_ops(*self)),
    {
        Lib::assemble::<Instr<RgbIsa<MemContract>>>(&self.code).expect("small programs always assemble")
    }
}

/// `Lib::id`: the id of a library.
#[verifier::external_body]
pub(crate) fn lib_id(lib: &Lib) -> (r: LibId)
    ensures
        r == lib_id_of(*lib),
{
    lib.id()
}

/// `LibSite::with(pos, id)`: the entry point at offset `pos` of library `id`.
#[verifier::external_body]
pub(crate) fn lib_site(pos: u16, id: LibId) -> (r: LibSite)
    ensures
        r == lib_site_of(pos, id),
{
    LibSite::with(pos, id)
}

// ---------------------------------------------------------------------------------------------
// Types and names.

/// Whether a strict type of this fully qualified name is in the type system.
pub uninterp spec fn std_types_has(types: StandardTypes, name: Seq<char>) -> bool;

/// The semantic id of the strict type of this fully qualified name.
pub uninterp spec fn sem_id_of(types: StandardTypes, name: Seq<char>) -> SemId;

/// `FieldName::from` of a valid field name.
pub uninterp spec fn field_name_of(name: Seq<char>) -> FieldName;

/// `TypeName::from` of a valid type name.
pub uninterp spec fn type_name_of(name: Seq<char>) -> TypeName;

/// `StandardTypes::with(rgb_contract_id_stl())`: the standard RGB contract types together with
/// the contract id library.
///
/// The standard libraries define the RGBContract types `Amount`, `Details`, `AssetSpec`,
/// `ContractTerms` and `RejectListUrl`, and the added library defines `RGBCommit.ContractId`.
/// The call panics only if these constant libraries did not form a type system.
#[verifier::external_body]
pub(crate) fn contract_standard_types() -> (r: StandardTypes)
    ensures
        std_types_has(r, "RGBContract.Amount"@),
        std_types_has(r, "RGBContract.Details"@),
        std_types_has(r, "RGBContract.AssetSpec"@),
        std_types_has(r, "RGBContract.ContractTerms"@),
        std_types_has(r, "RGBContract.RejectListUrl"@),
        std_types_has(r, "RGBCommit.ContractId"@),
{
    StandardTypes::with(rgb_contract_id_stl())
}

/// Whether the standard type system holds the type of this semantic id.
pub uninterp spec fn std_types_holds(types: StandardTypes, sem: SemId) -> bool;

/// Whether a type system holds the type of this semantic id.
pub uninterp spec fn type_system_holds(ts: TypeSystem, sem: SemId) -> bool;

/// Whether `schema` uses this semantic id: `Schema::types` yields it, from a metadata type, a
/// global state type or a structured owned state type.
pub uninterp spec fn schema_uses(schema: Schema, sem: SemId) -> bool;

/// The semantic id of `MetaDetails::sem_id`.
pub uninterp spec fn meta_details_sem(d: MetaDetails) -> SemId;

/// The semantic id of `GlobalStateSchema::sem_id`.
pub uninterp spec fn global_state_sem(g: GlobalStateSchema) -> SemId;

/// The semantic id of `GlobalDetails::global_state_schema.sem_id`.
pub uninterp spec fn global_details_sem(d: GlobalDetails) -> SemId;

/// `OwnedStateSchema::sem_id`: the semantic id of a structured owned state, none for the
/// others.
pub uninterp spec fn owned_state_sem(o: OwnedStateSchema) -> Option<SemId>;

/// `OwnedStateSchema::sem_id` of `AssignmentDetails::owned_state_schema`.
pub uninterp spec fn assignment_details_sem(d: AssignmentDetails) -> Option<SemId>;

/// `StandardTypes::get`: the semantic id of a type that the system holds, which `resolve`
/// finds among the symbols of the system, each naming one of its types.
#[verifier::external_body]
pub(crate) fn sem_id(types: &StandardTypes, name: &'static str) -> (r: SemId)
    requires
        std_types_has(*types, name@),
    ensures
        r == sem_id_of(*types, name@),
        std_types_holds(*types, r),
{
    types.get(name)
}

/// `FieldName::from`, which accepts a valid field name.
#[verifier::external_body]
pub(crate) fn field_name(name: &'static str) -> (r: FieldName)
    requires
        is_field_name(name@),
    ensures
        r == field_name_of(name@),
{
    FieldName::from(name)
}

/// `TypeName::from`, which accepts a valid type name.
#[verifier::external_body]
pub(crate) fn strict_type_name(name: &'static str) -> (r: TypeName)
    requires
        is_type_name(name@),
    ensures
        r == type_name_of(name@),
{
    TypeName::from(name)
}

// ---------------------------------------------------------------------------------------------
// Schema parts.

pub uninterp spec fn meta_type_of(id: u16) -> MetaType;

pub uninterp spec fn global_type_of(id: u16) -> GlobalStateType;

pub uninterp spec fn assignment_type_of(id: u16) -> AssignmentType;

pub uninterp spec fn transition_type_of(id: u16) -> TransitionType;

/// The occurrences that `Occurrences` has for each of ours, variant for variant.
pub uninterp spec fn occurrences_of(o: Occurs) -> Occurrences;

/// `MetaDetails { sem_id, name }`
pub uninterp spec fn meta_details_of(sem: SemId, name: FieldName) -> MetaDetails;

/// `GlobalStateSchema::once(sem_id)`
pub uninterp spec fn global_once_of(sem: SemId) -> GlobalStateSchema;

/// `GlobalStateSchema::many(sem_id)`
pub uninterp spec fn global_many_of(sem: SemId) -> GlobalStateSchema;

/// `GlobalDetails { global_state_schema, name }`
pub uninterp spec fn global_details_of(schema: GlobalStateSchema, name: FieldName) -> GlobalDetails;

/// `OwnedStateSchema::Fungible(FungibleType::Unsigned64Bit)` or `OwnedStateSchema::Declarative`.
pub uninterp spec fn owned_state_of(kind: OwnedKind) -> OwnedStateSchema;

/// `AssignmentDetails { owned_state_schema, name, default_transition }`
pub uninterp spec fn assignment_details_of(state: OwnedStateSchema, name: FieldName, default_transition: TransitionType) -> AssignmentDetails;

/// `GenesisSchema` with its tables built from these lists.
pub uninterp spec fn genesis_schema_of(
    metadata: Seq<MetaType>,
    globals: Seq<(GlobalStateType, Occurrences)>,
    assignments: Seq<(AssignmentType, Occurrences)>,
    validator: Option<LibSite>,
) -> GenesisSchema;

/// `TransitionSchema` with its tables built from these lists.
pub uninterp spec fn transition_schema_of(
    metadata: Seq<MetaType>,
    globals: Seq<(GlobalStateType, Occurrences)>,
    inputs: Seq<(AssignmentType, Occurrences)>,
    assignments: Seq<(AssignmentType, Occurrences)>,
    validator: Option<LibSite>,
) -> TransitionSchema;

/// `TransitionDetails { transition_schema, name }`
pub uninterp spec fn transition_details_of(schema: TransitionSchema, name: FieldName) -> TransitionDetails;

/// `Schema` of the default format version with its tables built from these lists.
pub uninterp spec fn schema_of(
    name: TypeName,
    meta_types: Seq<(MetaType, MetaDetails)>,
    global_types: Seq<(GlobalStateType, GlobalDetails)>,
    owned_types: Seq<(AssignmentType, AssignmentDetails)>,
    genesis: GenesisSchema,
    transitions: Seq<(TransitionType, TransitionDetails)>,
    default_assignment: Option<AssignmentType>,
) -> Schema;

/// The bytes of `Schema::schema_id`, the commitment to the whole schema.
pub uninterp spec fn schema_id_of(schema: Schema) -> Seq<u8>;

/// `StandardTypes::type_system`: the types a schema uses, taken from the type system.
pub uninterp spec fn type_system_of(types: StandardTypes, schema: Schema) -> TypeSystem;

#[verifier::external_body]
pub(crate) fn meta_type(id: u16) -> (r: MetaType)
    ensures
        r == meta_type_of(id),
{
    MetaType::with(id)
}

#[verifier::external_body]
pub(crate) fn global_type(id: u16) -> (r: GlobalStateType)
    ensures
        r == global_type_of(id),
{
    GlobalStateType::with(id)
}

#[verifier::external_body]
pub(crate) fn assignment_type(id: u16) -> (r: AssignmentType)
    ensures
        r == assignment_type_of(id),
{
    AssignmentType::with(id)
}

#[verifier::external_body]
pub(crate) fn transition_type(id: u16) -> (r: TransitionType)
    ensures
        r == transition_type_of(id),
{
    TransitionType::with(id)
}

/// The `Occurrences` variant of each of ours.
#[verifier::external_body]
pub(crate) fn occurrences(o: Occurs) -> (r: Occurrences)
    ensures
        r == occurrences_of(o),
{
    match o {
        Occurs::Once => Occurrences::Once,
        Occurs::NoneOrOnce => Occurrences::NoneOrOnce,
        Occurs::NoneOrMore => Occurrences::NoneOrMore,
        Occurs::OnceOrMore => Occurrences::OnceOrMore,
    }
}

#[verifier::external_body]
pub(crate) fn meta_details(sem: SemId, name: FieldName) -> (r: MetaDetails)
    ensures
        r == meta_details_of(sem, name),
        meta_details_sem(r) == sem,
{
    MetaDetails { sem_id: sem, name }
}

#[verifier::external_body]
pub(crate) fn global_once(sem: SemId) -> (r: GlobalStateSchema)
    ensures
        r == global_once_of(sem),
        global_state_sem(r) == sem,
{
    GlobalStateSchema::once(sem)
}

#[verifier::external_body]
pub(crate) fn global_many(sem: SemId) -> (r: GlobalStateSchema)
    ensures
        r == global_many_of(sem),
        global_state_sem(r) == sem,
{
    GlobalStateSchema::many(sem)
}

#[verifier::external_body]
pub(crate) fn global_details(schema: GlobalStateSchema, name: FieldName) -> (r: GlobalDetails)
    ensures
        r == global_details_of(schema, name),
        global_details_sem(r) == global_state_sem(schema),
{
    GlobalDetails { global_state_schema: schema, name }
}

/// The `OwnedStateSchema` variant of each kind; neither is structured.
#[verifier::external_body]
pub(crate) fn owned_state(kind: OwnedKind) -> (r: OwnedStateSchema)
    ensures
        r == owned_state_of(kind),
        owned_state_sem(r) is None,
{
    match kind {
        OwnedKind::Fungible64 => OwnedStateSchema::Fungible(FungibleType::Unsigned64Bit),
        OwnedKind::Declarative => OwnedStateSchema::Declarative,
    }
}

#[verifier::external_body]
pub(crate) fn assignment_details(state: OwnedStateSchema, name: FieldName, default_transition: TransitionType) -> (r: AssignmentDetails)
    ensures
        r == assignment_details_of(state, name, default_transition),
        assignment_details_sem(r) == owned_state_sem(state),
{
    AssignmentDetails { owned_state_schema: state, name, default_transition }
}

/// `GenesisSchema`, its tables collected with `Confined::from_iter_checked`, which accepts at
/// most 255 entries.
#[verifier::external_body]
pub(crate) fn genesis_schema(
    metadata: Vec<MetaType>,
    globals: Vec<(GlobalStateType, Occurrences)>,
    assignments: Vec<(AssignmentType, Occurrences)>,
    validator: Option<LibSite>,
) -> (r: GenesisSchema)
    requires
        metadata.len() <= 255,
        globals.len() <= 255,
        assignments.len() <= 255,
    ensures
        r == genesis_schema_of(metadata@, globals@, assignments@, validator),
{
    GenesisSchema {
        metadata: Confined::from_iter_checked(metadata),
        globals: Confined::from_iter_checked(globals),
        assignments: Confined::from_iter_checked(assignments),
        validator,
    }
}

/// `TransitionSchema`, its tables collected with `Confined::from_iter_checked`, which accepts
/// at most 255 entries.
#[verifier::external_body]
pub(crate) fn transition_schema(
    metadata: Vec<MetaType>,
    globals: Vec<(GlobalStateType, Occurrences)>,
    inputs: Vec<(AssignmentType, Occurrences)>,
    assignments: Vec<(AssignmentType, Occurrences)>,
    validator: Option<LibSite>,
) -> (r: TransitionSchema)
    requires
        metadata.len() <= 255,
        globals.len() <= 255,
        inputs.len() <= 255,
        assignments.len() <= 255,
    ensures
        r == transition_schema_of(metadata@, globals@, inputs@, assignments@, validator),
{
    TransitionSchema {
        metadata: Confined::from_iter_checked(metadata),
        globals: Confined::from_iter_checked(globals),
        inputs: Confined::from_iter_checked(inputs),
        assignments: Confined::from_iter_checked(assignments),
        validator,
    }
}

#[verifier::external_body]
pub(crate) fn transition_details(schema: TransitionSchema, name: FieldName) -> (r: TransitionDetails)
    ensures
        r == transition_details_of(schema, name),
{
    TransitionDetails { transition_schema: schema, name }
}

/// `Schema` of the default format version, its tables collected with
/// `Confined::from_iter_checked`, which accepts at most 255 entries.
#[verifier::external_body]
pub(crate) fn schema(
    name: TypeName,
    meta_types: Vec<(MetaType, MetaDetails)>,
    global_types: Vec<(GlobalStateType, GlobalDetails)>,
    owned_types: Vec<(AssignmentType, AssignmentDetails)>,
    genesis: GenesisSchema,
    transitions: Vec<(TransitionType, TransitionDetails)>,
    default_assignment: Option<AssignmentType>,
) -> (r: Schema)
    requires
        meta_types.len() <= 255,
        global_types.len() <= 255,
        owned_types.len() <= 255,
        transitions.len() <= 255,
    ensures
        r == schema_of(name, meta_types@, global_types@, owned_types@, genesis, transitions@, default_assignment),
        forall|sem: SemId| #[trigger] schema_uses(r, sem) ==> {
            ||| exists|i: int| 0 <= i < meta_types@.len() && meta_details_sem(#[trigger] meta_types@[i].1) == sem
            ||| exists|i: int| 0 <= i < global_types@.len() && global_details_sem(#[trigger] global_types@[i].1) == sem
            ||| exists|i: int| 0 <= i < owned_types@.len() && assignment_details_sem(#[trigger] owned_types@[i].1) == Some(sem)
        },
{
    Schema {
        ffv: Ffv::default(),
        name,
        meta_types: Confined::from_iter_checked(meta_types),
        global_types: Confined::from_iter_checked(global_types),
        owned_types: Confined::from_iter_checked(owned_types),
        genesis,
        transitions: Confined::from_iter_checked(transitions),
        default_assignment,
    }
}

/// `Schema::schema_id`, as its 32 bytes.
#[verifier::external_body]
pub(crate) fn schema_id(schema: &Schema) -> (r: [u8; 32])
    ensures
        r@ == schema_id_of(*schema),
{
    schema.schema_id().to_byte_array()
}

/// `StandardTypes::type_system`: extracts from the system the types that the schema uses,
/// with the types they refer to.
///
/// The extraction fails, and the call panics, only when a used type is missing; the standard
/// system is closed (its builder rejects references to absent types), so a schema whose
/// semantic ids it all holds is extracted in full.
#[verifier::external_body]
pub(crate) fn type_system(types: &StandardTypes, schema: Schema) -> (r: TypeSystem)
    requires
        forall|sem: SemId| #[trigger] schema_uses(schema, sem) ==> std_types_holds(*types, sem),
    ensures
        r == type_system_of(*types, schema),
        forall|sem: SemId| #[trigger] schema_uses(schema, sem) ==> type_system_holds(r, sem),
{
    types.type_system(schema)
}

} // verus!
