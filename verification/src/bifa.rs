//! The BIFA issuer: its schema, type system and validation libraries, built from the plain
//! description in [`crate::schema`] and [`crate::scripts`].

use vstd::prelude::*;

use aluvm::library::{Lib, LibId, LibSite};
use rgbstd::schema::{
    AssignmentDetails, GenesisSchema, GlobalDetails, MetaDetails, Occurrences, TransitionDetails,
};
use rgbstd::stl::StandardTypes;
use rgbstd::{AssignmentType, GlobalStateType, MetaType, Schema, TransitionType};
use strict_types::{SemId, TypeSystem};

use crate::rgb::{
    assembled, assignment_details, assignment_details_of, assignment_type, assignment_type_of,
    contract_standard_types, field_name, field_name_of, genesis_schema, genesis_schema_of,
    global_details, global_details_of, global_many, global_many_of, global_once, global_once_of,
    global_type, global_type_of, lib_id, lib_id_of, lib_site, lib_site_of, meta_details,
    meta_details_of, meta_type, meta_type_of, occurrences, occurrences_of, owned_state,
    owned_state_of, schema, schema_of, sem_id, sem_id_of, std_types_has, strict_type_name,
    transition_details, transition_details_of, transition_schema, transition_schema_of,
    transition_type, transition_type_of, type_name_of, type_system, type_system_of, RgbCode,
    code_ops, schema_id, schema_id_of, std_types_holds, type_system_holds, schema_uses,
    meta_details_sem, global_details_sem, assignment_details_sem,
};
use crate::schema::{
    bifa_schema_model, bifa_schema_view, is_field_name, op_consistent, schema_consistent,
    GlobalEntry, MetaEntry, OpSchema, OpSchemaView, Occurs, OwnedEntry, SchemaModel, SchemaView,
    Script, SemType, TransitionEntry, TransitionView, sem_type_name,
};
use crate::scripts::{
    claim_mint_script, genesis_script, inflation_script, op_wf, program_wf, script_ops,
    script_program, transfer_script, AluOp,
};

verus! {

/// The id of the BIFA schema.
pub const BIFA_SCHEMA_ID: [u8; 32] = [
    0x0d, 0x4d, 0x7b, 0xab, 0xcc, 0x66, 0x95, 0x28, 0xbf, 0xd4, 0x0d, 0x7d, 0xf2, 0xb1, 0xc9, 0xe3,
    0x87, 0x11, 0xb7, 0xc7, 0x84, 0x17, 0x94, 0x4b, 0x75, 0xba, 0x87, 0x49, 0x7c, 0x6e, 0xac, 0xb0,
];

// ---------------------------------------------------------------------------------------------
// Validation libraries.

/// Appends the instruction of `op` to `code`.
fn emit(code: &mut RgbCode, op: AluOp)
    requires
        op_wf(op),
    ensures
        code_ops(*final(code)) == code_ops(*old(code)).push(op),
{
    match op {
        AluOp::PutA8 { reg, value } => code.put_a8(reg, value),
        AluOp::PutA16 { reg, value } => code.put_a16(reg, value),
        AluOp::Svs { ty } => code.svs(ty),
        AluOp::Sas { ty } => code.sas(ty),
        AluOp::Sps { ty } => code.sps(ty),
        AluOp::CnP { ty, reg } => code.cnp(ty, reg),
        AluOp::CnS { ty, reg } => code.cns(ty, reg),
        AluOp::LdG { ty, item, dst } => code.ldg(ty, item, dst),
        AluOp::LdM { ty, dst } => code.ldm(ty, dst),
        AluOp::ExtrA64 { src, dst, offset } => code.extr_a64(src, dst, offset),
        AluOp::EqNA16 { a, b } => code.eq_n_a16(a, b),
        AluOp::AddUcA64 { src, dst } => code.add_uc_a64(src, dst),
        AluOp::SubUcA64 { src, dst } => code.sub_uc_a64(src, dst),
        AluOp::CpyA64 { src, dst } => code.cpy_a64(src, dst),
        AluOp::Test => code.test(),
        AluOp::Ret => code.ret(),
    }
}

/// Assembles a program into an AluVM library.
pub fn assemble_program(ops: &Vec<AluOp>) -> (lib: Lib)
    requires
        program_wf(ops@),
    ensures
        lib == assembled(ops@),
{
    let mut code = RgbCode::new();
    let mut i: usize = 0;
    while i < ops.len()
        invariant
            i <= ops.len(),
            program_wf(ops@),
            code_ops(code) == ops@.take(i as int),
        decreases ops.len() - i,
    {
        emit(&mut code, ops[i]);
        proof {
            assert(ops@.take(i as int + 1) =~= ops@.take(i as int).push(ops@[i as int]));
        }
        i += 1;
    }
    proof {
        assert(ops@.take(ops.len() as int) =~= ops@);
    }
    code.assemble()
}

/// The library of script `s`.
pub open spec fn script_lib(s: Script) -> Lib {
    assembled(script_program(s))
}

/// The library of the genesis validation script.
pub fn bifa_lib_genesis() -> (lib: Lib)
    ensures
        lib == script_lib(Script::Genesis),
{
    assemble_program(&genesis_script())
}

/// The library of the transfer validation script.
pub fn bifa_lib_transfer() -> (lib: Lib)
    ensures
        lib == script_lib(Script::Transfer),
{
    assemble_program(&transfer_script())
}

/// The library of the inflation validation script.
pub fn bifa_lib_inflation() -> (lib: Lib)
    ensures
        lib == script_lib(Script::Inflation),
{
    assemble_program(&inflation_script())
}

/// The library of the claim-mint validation script.
pub fn bifa_lib_claim_mint() -> (lib: Lib)
    ensures
        lib == script_lib(Script::ClaimMint),
{
    assemble_program(&claim_mint_script())
}

/// The library of script `s`.
pub fn script_library(s: Script) -> (lib: Lib)
    ensures
        lib == script_lib(s),
{
    assemble_program(&script_ops(s))
}

// ---------------------------------------------------------------------------------------------
// From the plain schema to the RGB schema.

/// The standard type system has every type that the schema refers to.
pub open spec fn types_complete(types: StandardTypes) -> bool {
    forall|t: SemType| #[trigger] std_types_has(types, sem_type_name(t))
}

/// The entry point of the library of script `s`: its first instruction, at offset 0.
pub open spec fn rgb_validator(v: Option<Script>) -> Option<LibSite> {
    match v {
        Some(s) => Some(lib_site_of(0, lib_id_of(script_lib(s)))),
        None => None,
    }
}

pub open spec fn rgb_global_occurs(p: (u16, Occurs)) -> (GlobalStateType, Occurrences) {
    (global_type_of(p.0), occurrences_of(p.1))
}

pub open spec fn rgb_assignment_occurs(p: (u16, Occurs)) -> (AssignmentType, Occurrences) {
    (assignment_type_of(p.0), occurrences_of(p.1))
}

pub open spec fn rgb_meta(types: StandardTypes, e: MetaEntry) -> (MetaType, MetaDetails) {
    (meta_type_of(e.id), meta_details_of(sem_id_of(types, sem_type_name(e.sem)), field_name_of(e.name@)))
}

pub open spec fn rgb_global(types: StandardTypes, e: GlobalEntry) -> (GlobalStateType, GlobalDetails) {
    let sem = sem_id_of(types, sem_type_name(e.sem));
    let state = if e.many { global_many_of(sem) } else { global_once_of(sem) };
    (global_type_of(e.id), global_details_of(state, field_name_of(e.name@)))
}

pub open spec fn rgb_owned(e: OwnedEntry) -> (AssignmentType, AssignmentDetails) {
    (
        assignment_type_of(e.id),
        assignment_details_of(owned_state_of(e.kind), field_name_of(e.name@), transition_type_of(e.default_transition)),
    )
}

pub open spec fn rgb_genesis(op: OpSchemaView) -> GenesisSchema {
    genesis_schema_of(
        op.metadata.map_values(|m: u16| meta_type_of(m)),
        op.globals.map_values(|p: (u16, Occurs)| rgb_global_occurs(p)),
        op.assignments.map_values(|p: (u16, Occurs)| rgb_assignment_occurs(p)),
        rgb_validator(op.validator),
    )
}

pub open spec fn rgb_transition(t: TransitionView) -> (TransitionType, TransitionDetails) {
    let ts = transition_schema_of(
        t.op.metadata.map_values(|m: u16| meta_type_of(m)),
        t.op.globals.map_values(|p: (u16, Occurs)| rgb_global_occurs(p)),
        t.op.inputs.map_values(|p: (u16, Occurs)| rgb_assignment_occurs(p)),
        t.op.assignments.map_values(|p: (u16, Occurs)| rgb_assignment_occurs(p)),
        rgb_validator(t.op.validator),
    );
    (transition_type_of(t.id), transition_details_of(ts, field_name_of(t.name@)))
}

/// The RGB schema that the plain schema `s` describes, its semantic ids taken from `types`.
pub open spec fn rgb_schema(types: StandardTypes, s: SchemaView) -> Schema {
    schema_of(
        type_name_of(s.name@),
        s.meta_types.map_values(|e: MetaEntry| rgb_meta(types, e)),
        s.global_types.map_values(|e: GlobalEntry| rgb_global(types, e)),
        s.owned_types.map_values(|e: OwnedEntry| rgb_owned(e)),
        rgb_genesis(s.genesis),
        s.transitions.map_values(|t: TransitionView| rgb_transition(t)),
        match s.default_assignment {
            Some(a) => Some(assignment_type_of(a)),
            None => None,
        },
    )
}

fn rgb_metadata(v: &Vec<u16>) -> (r: Vec<MetaType>)
    ensures
        r@ == v@.map_values(|m: u16| meta_type_of(m)),
{
    let mut r: Vec<MetaType> = Vec::new();
    let mut i: usize = 0;
    while i < v.len()
        invariant
            i <= v.len(),
            r@ == v@.take(i as int).map_values(|m: u16| meta_type_of(m)),
        decreases v.len() - i,
    {
        r.push(meta_type(v[i]));
        proof {
            assert(v@.take(i as int + 1).map_values(|m: u16| meta_type_of(m))
                =~= v@.take(i as int).map_values(|m: u16| meta_type_of(m)).push(meta_type_of(v@[i as int])));
        }
        i += 1;
    }
    proof {
        assert(v@.take(v.len() as int) =~= v@);
    }
    r
}

fn rgb_global_pairs(v: &Vec<(u16, Occurs)>) -> (r: Vec<(GlobalStateType, Occurrences)>)
    ensures
        r@ == v@.map_values(|p: (u16, Occurs)| rgb_global_occurs(p)),
{
    let mut r: Vec<(GlobalStateType, Occurrences)> = Vec::new();
    let mut i: usize = 0;
    while i < v.len()
        invariant
            i <= v.len(),
            r@ == v@.take(i as int).map_values(|p: (u16, Occurs)| rgb_global_occurs(p)),
        decreases v.len() - i,
    {
        let (k, o) = v[i];
        r.push((global_type(k), occurrences(o)));
        proof {
            assert(v@.take(i as int + 1).map_values(|p: (u16, Occurs)| rgb_global_occurs(p))
                =~= v@.take(i as int).map_values(|p: (u16, Occurs)| rgb_global_occurs(p)).push(rgb_global_occurs(v@[i as int])));
        }
        i += 1;
    }
    proof {
        assert(v@.take(v.len() as int) =~= v@);
    }
    r
}

fn rgb_assignment_pairs(v: &Vec<(u16, Occurs)>) -> (r: Vec<(AssignmentType, Occurrences)>)
    ensures
        r@ == v@.map_values(|p: (u16, Occurs)| rgb_assignment_occurs(p)),
{
    let mut r: Vec<(AssignmentType, Occurrences)> = Vec::new();
    let mut i: usize = 0;
    while i < v.len()
        invariant
            i <= v.len(),
            r@ == v@.take(i as int).map_values(|p: (u16, Occurs)| rgb_assignment_occurs(p)),
        decreases v.len() - i,
    {
        let (k, o) = v[i];
        r.push((assignment_type(k), occurrences(o)));
        proof {
            assert(v@.take(i as int + 1).map_values(|p: (u16, Occurs)| rgb_assignment_occurs(p))
                =~= v@.take(i as int).map_values(|p: (u16, Occurs)| rgb_assignment_occurs(p)).push(rgb_assignment_occurs(v@[i as int])));
        }
        i += 1;
    }
    proof {
        assert(v@.take(v.len() as int) =~= v@);
    }
    r
}

fn rgb_validator_site(v: Option<Script>) -> (r: Option<LibSite>)
    ensures
        r == rgb_validator(v),
{
    match v {
        Some(s) => {
            let lib = script_library(s);
            Some(lib_site(0, lib_id(&lib)))
        },
        None => None,
    }
}

fn rgb_meta_types(types: &StandardTypes, v: &Vec<MetaEntry>) -> (r: Vec<(MetaType, MetaDetails)>)
    requires
        types_complete(*types),
        forall|i: int| 0 <= i < v@.len() ==> is_field_name((#[trigger] v@[i]).name@),
    ensures
        r@ == v@.map_values(|e: MetaEntry| rgb_meta(*types, e)),
        forall|i: int| 0 <= i < r@.len() ==> std_types_holds(*types, meta_details_sem(#[trigger] r@[i].1)),
{
    let mut r: Vec<(MetaType, MetaDetails)> = Vec::new();
    let mut i: usize = 0;
    while i < v.len()
        invariant
            i <= v.len(),
            types_complete(*types),
            forall|i: int| 0 <= i < v@.len() ==> is_field_name((#[trigger] v@[i]).name@),
            r@ == v@.take(i as int).map_values(|e: MetaEntry| rgb_meta(*types, e)),
            forall|i: int| 0 <= i < r@.len() ==> std_types_holds(*types, meta_details_sem(#[trigger] r@[i].1)),
        decreases v.len() - i,
    {
        let e = v[i];
        assert(std_types_has(*types, sem_type_name(e.sem)));
        assert(is_field_name(v@[i as int].name@));
        let sem = sem_id(types, e.sem.qualified_name());
        r.push((meta_type(e.id), meta_details(sem, field_name(e.name))));
        proof {
            assert(v@.take(i as int + 1).map_values(|e: MetaEntry| rgb_meta(*types, e))
                =~= v@.take(i as int).map_values(|e: MetaEntry| rgb_meta(*types, e)).push(rgb_meta(*types, v@[i as int])));
        }
        i += 1;
    }
    proof {
        assert(v@.take(v.len() as int) =~= v@);
    }
    r
}

fn rgb_global_types(types: &StandardTypes, v: &Vec<GlobalEntry>) -> (r: Vec<(GlobalStateType, GlobalDetails)>)
    requires
        types_complete(*types),
        forall|i: int| 0 <= i < v@.len() ==> is_field_name((#[trigger] v@[i]).name@),
    ensures
        r@ == v@.map_values(|e: GlobalEntry| rgb_global(*types, e)),
        forall|i: int| 0 <= i < r@.len() ==> std_types_holds(*types, global_details_sem(#[trigger] r@[i].1)),
{
    let mut r: Vec<(GlobalStateType, GlobalDetails)> = Vec::new();
    let mut i: usize = 0;
    while i < v.len()
        invariant
            i <= v.len(),
            types_complete(*types),
            forall|i: int| 0 <= i < v@.len() ==> is_field_name((#[trigger] v@[i]).name@),
            r@ == v@.take(i as int).map_values(|e: GlobalEntry| rgb_global(*types, e)),
            forall|i: int| 0 <= i < r@.len() ==> std_types_holds(*types, global_details_sem(#[trigger] r@[i].1)),
        decreases v.len() - i,
    {
        let e = v[i];
        assert(std_types_has(*types, sem_type_name(e.sem)));
        assert(is_field_name(v@[i as int].name@));
        let sem = sem_id(types, e.sem.qualified_name());
        let state = if e.many { global_many(sem) } else { global_once(sem) };
        r.push((global_type(e.id), global_details(state, field_name(e.name))));
        proof {
            assert(v@.take(i as int + 1).map_values(|e: GlobalEntry| rgb_global(*types, e))
                =~= v@.take(i as int).map_values(|e: GlobalEntry| rgb_global(*types, e)).push(rgb_global(*types, v@[i as int])));
        }
        i += 1;
    }
    proof {
        assert(v@.take(v.len() as int) =~= v@);
    }
    r
}

fn rgb_owned_types(v: &Vec<OwnedEntry>) -> (r: Vec<(AssignmentType, AssignmentDetails)>)
    requires
        forall|i: int| 0 <= i < v@.len() ==> is_field_name((#[trigger] v@[i]).name@),
    ensures
        r@ == v@.map_values(|e: OwnedEntry| rgb_owned(e)),
        forall|i: int| 0 <= i < r@.len() ==> assignment_details_sem(#[trigger] r@[i].1) is None,
{
    let mut r: Vec<(AssignmentType, AssignmentDetails)> = Vec::new();
    let mut i: usize = 0;
    while i < v.len()
        invariant
            i <= v.len(),
            forall|i: int| 0 <= i < v@.len() ==> is_field_name((#[trigger] v@[i]).name@),
            r@ == v@.take(i as int).map_values(|e: OwnedEntry| rgb_owned(e)),
            forall|i: int| 0 <= i < r@.len() ==> assignment_details_sem(#[trigger] r@[i].1) is None,
        decreases v.len() - i,
    {
        let e = v[i];
        assert(is_field_name(v@[i as int].name@));
        let state = owned_state(e.kind);
        let details = assignment_details(state, field_name(e.name), transition_type(e.default_transition));
        r.push((assignment_type(e.id), details));
        proof {
            assert(v@.take(i as int + 1).map_values(|e: OwnedEntry| rgb_owned(e))
                =~= v@.take(i as int).map_values(|e: OwnedEntry| rgb_owned(e)).push(rgb_owned(v@[i as int])));
        }
        i += 1;
    }
    proof {
        assert(v@.take(v.len() as int) =~= v@);
    }
    r
}

fn rgb_genesis_schema(op: &OpSchema) -> (r: GenesisSchema)
    requires
        op@.metadata.len() <= 255,
        op@.globals.len() <= 255,
        op@.assignments.len() <= 255,
    ensures
        r == rgb_genesis(op@),
{
    genesis_schema(
        rgb_metadata(&op.metadata),
        rgb_global_pairs(&op.globals),
        rgb_assignment_pairs(&op.assignments),
        rgb_validator_site(op.validator),
    )
}

fn rgb_transition_entry(t: &TransitionEntry) -> (r: (TransitionType, TransitionDetails))
    requires
        t@.op.metadata.len() <= 255,
        t@.op.globals.len() <= 255,
        t@.op.inputs.len() <= 255,
        t@.op.assignments.len() <= 255,
        is_field_name(t@.name@),
    ensures
        r == rgb_transition(t@),
{
    let ts = transition_schema(
        rgb_metadata(&t.op.metadata),
        rgb_global_pairs(&t.op.globals),
        rgb_assignment_pairs(&t.op.inputs),
        rgb_assignment_pairs(&t.op.assignments),
        rgb_validator_site(t.op.validator),
    );
    (transition_type(t.id), transition_details(ts, field_name(t.name)))
}

fn rgb_transitions(v: &Vec<TransitionEntry>) -> (r: Vec<(TransitionType, TransitionDetails)>)
    requires
        forall|i: int| 0 <= i < v@.len() ==> {
            let t = (#[trigger] v@[i])@;
            &&& t.op.metadata.len() <= 255
            &&& t.op.globals.len() <= 255
            &&& t.op.inputs.len() <= 255
            &&& t.op.assignments.len() <= 255
            &&& is_field_name(t.name@)
        },
    ensures
        r@ == v@.map_values(|t: TransitionEntry| t@).map_values(|t: TransitionView| rgb_transition(t)),
{
    let ghost views = v@.map_values(|t: TransitionEntry| t@);
    let mut r: Vec<(TransitionType, TransitionDetails)> = Vec::new();
    let mut i: usize = 0;
    while i < v.len()
        invariant
            i <= v.len(),
            views == v@.map_values(|t: TransitionEntry| t@),
            forall|i: int| 0 <= i < v@.len() ==> {
                let t = (#[trigger] v@[i])@;
                &&& t.op.metadata.len() <= 255
                &&& t.op.globals.len() <= 255
                &&& t.op.inputs.len() <= 255
                &&& t.op.assignments.len() <= 255
                &&& is_field_name(t.name@)
            },
            r@ == views.take(i as int).map_values(|t: TransitionView| rgb_transition(t)),
        decreases v.len() - i,
    {
        assert(v@[i as int]@.op.metadata.len() <= 255);
        r.push(rgb_transition_entry(&v[i]));
        proof {
            assert(views.take(i as int + 1).map_values(|t: TransitionView| rgb_transition(t))
                =~= views.take(i as int).map_values(|t: TransitionView| rgb_transition(t)).push(rgb_transition(views[i as int])));
        }
        i += 1;
    }
    proof {
        assert(views.take(v.len() as int) =~= views);
    }
    r
}

/// The RGB schema that a consistent plain schema describes.
pub fn to_rgb_schema(types: &StandardTypes, s: &SchemaModel) -> (r: Schema)
    requires
        types_complete(*types),
        schema_consistent(s@),
    ensures
        r == rgb_schema(*types, s@),
        forall|sem: SemId| #[trigger] schema_uses(r, sem) ==> std_types_holds(*types, sem),
{
    let ghost v = s@;
    assert forall|i: int| 0 <= i < s.meta_types@.len() implies is_field_name((#[trigger] s.meta_types@[i]).name@) by {
        assert(v.meta_types[i] == s.meta_types@[i]);
    }
    assert forall|i: int| 0 <= i < s.global_types@.len() implies is_field_name((#[trigger] s.global_types@[i]).name@) by {
        assert(v.global_types[i] == s.global_types@[i]);
    }
    assert forall|i: int| 0 <= i < s.owned_types@.len() implies is_field_name((#[trigger] s.owned_types@[i]).name@) by {
        assert(v.owned_types[i] == s.owned_types@[i]);
    }
    assert forall|i: int| 0 <= i < s.transitions@.len() implies {
        let t = (#[trigger] s.transitions@[i])@;
        &&& t.op.metadata.len() <= 255
        &&& t.op.globals.len() <= 255
        &&& t.op.inputs.len() <= 255
        &&& t.op.assignments.len() <= 255
        &&& is_field_name(t.name@)
    } by {
        assert(v.transitions[i] == s.transitions@[i]@);
        assert(op_consistent(v.transitions[i].op, v));
    }
    let name = strict_type_name(s.name);
    let meta = rgb_meta_types(types, &s.meta_types);
    let globals = rgb_global_types(types, &s.global_types);
    let owned = rgb_owned_types(&s.owned_types);
    let genesis = rgb_genesis_schema(&s.genesis);
    let transitions = rgb_transitions(&s.transitions);
    let default_assignment = match s.default_assignment {
        Some(a) => Some(assignment_type(a)),
        None => None,
    };
    schema(name, meta, globals, owned, genesis, transitions, default_assignment)
}

// ---------------------------------------------------------------------------------------------
// The issuer.

/// The standard RGB contract types with the contract id library, which hold every type that
/// the schema refers to.
pub fn bifa_standard_types() -> (types: StandardTypes)
    ensures
        types_complete(types),
{
    let types = contract_standard_types();
    assert forall|t: SemType| #[trigger] std_types_has(types, sem_type_name(t)) by {
        match t {
            SemType::Amount => {},
            SemType::Details => {},
            SemType::AssetSpec => {},
            SemType::ContractTerms => {},
            SemType::RejectListUrl => {},
            SemType::ContractId => {},
        }
    }
    types
}

/// The BIFA schema, its semantic ids taken from `types`.
pub fn bifa_schema_with(types: &StandardTypes) -> (s: Schema)
    requires
        types_complete(*types),
    ensures
        s == rgb_schema(*types, bifa_schema_view()),
        forall|sem: SemId| #[trigger] schema_uses(s, sem) ==> std_types_holds(*types, sem),
{
    let model = bifa_schema_model();
    to_rgb_schema(types, &model)
}

/// The BIFA schema.
pub fn bifa_schema() -> (s: Schema)
    ensures
        exists|types: StandardTypes| types_complete(types) && s == rgb_schema(types, bifa_schema_view()),
{
    let types = bifa_standard_types();
    bifa_schema_with(&types)
}

/// The four validation libraries, each with its id: genesis, transfer, inflation and
/// claim-mint.
pub open spec fn bifa_scripts() -> Seq<(LibId, Lib)> {
    seq![
        (lib_id_of(script_lib(Script::Genesis)), script_lib(Script::Genesis)),
        (lib_id_of(script_lib(Script::Transfer)), script_lib(Script::Transfer)),
        (lib_id_of(script_lib(Script::Inflation)), script_lib(Script::Inflation)),
        (lib_id_of(script_lib(Script::ClaimMint)), script_lib(Script::ClaimMint)),
    ]
}

/// The issuer of Bridged Inflatable Fungible Assets.
#[derive(Default)]
pub struct BridgedInflatableFungibleAsset;

impl BridgedInflatableFungibleAsset {
    /// The BIFA schema.
    pub fn schema() -> (s: Schema)
        ensures
            exists|types: StandardTypes| types_complete(types) && s == rgb_schema(types, bifa_schema_view()),
    {
        bifa_schema()
    }

    /// The types that the BIFA schema uses, taken from the standard type system: the result
    /// holds every semantic id that the schema uses.
    pub fn types() -> (ts: TypeSystem)
        ensures
            exists|types: StandardTypes| types_complete(types)
                && ts == type_system_of(types, rgb_schema(types, bifa_schema_view()))
                && forall|sem: SemId| #[trigger] schema_uses(rgb_schema(types, bifa_schema_view()), sem)
                    ==> type_system_holds(ts, sem),
    {
        let types = bifa_standard_types();
        let s = bifa_schema_with(&types);
        type_system(&types, s)
    }

    /// The validation libraries of the schema, each with its id.
    pub fn scripts() -> (libs: Vec<(LibId, Lib)>)
        ensures
            libs@ == bifa_scripts(),
    {
        let genesis = bifa_lib_genesis();
        let transfer = bifa_lib_transfer();
        let inflation = bifa_lib_inflation();
        let claim_mint = bifa_lib_claim_mint();
        let mut libs: Vec<(LibId, Lib)> = Vec::new();
        libs.push((lib_id(&genesis), genesis));
        libs.push((lib_id(&transfer), transfer));
        libs.push((lib_id(&inflation), inflation));
        libs.push((lib_id(&claim_mint), claim_mint));
        assert(libs@ =~= bifa_scripts());
        libs
    }
}

/// Every script that the schema names as a validator is among the libraries that `scripts()`
/// returns, under the id by which the schema refers to it.
pub proof fn scripts_provide_every_validator(sc: Script)
    ensures
        exists|i: int|
            0 <= i < bifa_scripts().len()
                && #[trigger] bifa_scripts()[i] == (lib_id_of(script_lib(sc)), script_lib(sc)),
        rgb_validator(Some(sc)) == Some(lib_site_of(0, lib_id_of(script_lib(sc)))),
{
    match sc {
        Script::Genesis => assert(bifa_scripts()[0] == (lib_id_of(script_lib(sc)), script_lib(sc))),
        Script::Transfer => assert(bifa_scripts()[1] == (lib_id_of(script_lib(sc)), script_lib(sc))),
        Script::Inflation => assert(bifa_scripts()[2] == (lib_id_of(script_lib(sc)), script_lib(sc))),
        Script::ClaimMint => assert(bifa_scripts()[3] == (lib_id_of(script_lib(sc)), script_lib(sc))),
    }
}

/// A schema whose id is [`BIFA_SCHEMA_ID`]: the schema of a contract read as a BIFA contract.
pub struct BifaSchema {
    schema: Schema,
}

impl BifaSchema {
    /// The schema held.
    pub closed spec fn view_schema(self) -> Schema {
        self.schema
    }

    #[verifier::type_invariant]
    spec fn is_bifa(self) -> bool {
        schema_id_of(self.schema) == BIFA_SCHEMA_ID@
    }

    /// Takes the schema of a contract to be read as a BIFA contract; its id must be
    /// [`BIFA_SCHEMA_ID`] (test it with [`is_bifa_schema`]).
    pub fn with(schema: Schema) -> (r: Self)
        requires
            schema_id_of(schema) == BIFA_SCHEMA_ID@,
        ensures
            r.view_schema() == schema,
    {
        BifaSchema { schema }
    }

    /// The schema, whose id is [`BIFA_SCHEMA_ID`].
    pub fn schema(&self) -> (r: &Schema)
        ensures
            *r == self.view_schema(),
            schema_id_of(*r) == BIFA_SCHEMA_ID@,
    {
        proof {
            use_type_invariant(self);
        }
        &self.schema
    }
}

/// Whether `schema` is the BIFA schema: whether its id is [`BIFA_SCHEMA_ID`].
pub fn is_bifa_schema(schema: &Schema) -> (r: bool)
    ensures
        r == (schema_id_of(*schema) == BIFA_SCHEMA_ID@),
{
    let id = schema_id(schema);
    let mut i: usize = 0;
    while i < 32
        invariant
            i <= 32,
            id@ == schema_id_of(*schema),
            forall|j: int| 0 <= j < i ==> id@[j] == BIFA_SCHEMA_ID@[j],
        decreases 32 - i,
    {
        if id[i] != BIFA_SCHEMA_ID[i] {
            assert(id@[i as int] != BIFA_SCHEMA_ID@[i as int]);
            return false;
        }
        i += 1;
    }
    assert(id@ =~= BIFA_SCHEMA_ID@);
    true
}

} // verus!
