//! The BIFA schema as plain data.
//!
//! Every table of the schema (metadata, global state, owned state, genesis and transitions) is
//! held here as a vector of plain entries. [`bifa_schema_model`] builds the table and its
//! contract pins it to [`bifa_schema_view`]; the rules that the schema promises (consistency of
//! its tables, the claim baton and linking rules) are stated over the views.

use vstd::prelude::*;

use crate::{
    GS_EVM_CHAIN_ID, GS_EVM_CLAIM_MINT_CONTRACT, GS_ISSUED_SUPPLY, GS_LINKED_FROM_CONTRACT,
    GS_LINKED_TO_CONTRACT, GS_MAX_SUPPLY, GS_NOMINAL, GS_REJECT_LIST_URL, GS_TERMS,
    MS_ALLOWED_INFLATION, MS_CLAIM_AMOUNT, MS_CLAIM_CHAIN_ID, MS_CLAIM_CONTRACT,
    MS_CLAIM_EVENT_LOG_INDEX, MS_CLAIM_EVENT_TX_HASH, MS_CLAIM_NULLIFIER, MS_CLAIM_PROOF, OS_ASSET,
    OS_CLAIM_BATON, OS_INFLATION, OS_LINK, TS_BURN, TS_CLAIM_MINT, TS_GRANT_BATON, TS_INFLATION,
    TS_LINK, TS_TRANSFER,
};

verus! {

/// How many times a state item may occur in an operation.
#[derive(Clone, Copy, PartialEq, Eq, Debug, Structural)]
pub enum Occurs {
    Once,
    NoneOrOnce,
    NoneOrMore,
    OnceOrMore,
}

/// The strict types of the state values that the schema refers to.
#[derive(Clone, Copy, PartialEq, Eq, Debug, Structural)]
pub enum SemType {
    Amount,
    Details,
    AssetSpec,
    ContractTerms,
    RejectListUrl,
    ContractId,
}

/// Fully qualified name of a strict type in the RGB standard type libraries.
pub open spec fn sem_type_name(t: SemType) -> Seq<char> {
    match t {
        SemType::Amount => "RGBContract.Amount"@,
        SemType::Details => "RGBContract.Details"@,
        SemType::AssetSpec => "RGBContract.AssetSpec"@,
        SemType::ContractTerms => "RGBContract.ContractTerms"@,
        SemType::RejectListUrl => "RGBContract.RejectListUrl"@,
        SemType::ContractId => "RGBCommit.ContractId"@,
    }
}

impl SemType {
    /// The fully qualified strict type name.
    pub fn qualified_name(&self) -> (r: &'static str)
        ensures
            r@ == sem_type_name(*self),
    {
        match self {
            SemType::Amount => "RGBContract.Amount",
            SemType::Details => "RGBContract.Details",
            SemType::AssetSpec => "RGBContract.AssetSpec",
            SemType::ContractTerms => "RGBContract.ContractTerms",
            SemType::RejectListUrl => "RGBContract.RejectListUrl",
            SemType::ContractId => "RGBCommit.ContractId",
        }
    }
}

/// The kind of an owned state.
#[derive(Clone, Copy, PartialEq, Eq, Debug, Structural)]
pub enum OwnedKind {
    /// Fungible state of 64 bits.
    Fungible64,
    /// State without data: a right.
    Declarative,
}

/// The validation scripts of the schema.
#[derive(Clone, Copy, PartialEq, Eq, Debug, Structural)]
pub enum Script {
    Genesis,
    Transfer,
    Inflation,
    ClaimMint,
}

/// A metadata type: its id, the strict type of its value and its name.
#[derive(Clone, Copy, Debug)]
pub struct MetaEntry {
    pub id: u16,
    pub sem: SemType,
    pub name: &'static str,
}

/// A global state type; `many` tells whether it may hold more than one item.
#[derive(Clone, Copy, Debug)]
pub struct GlobalEntry {
    pub id: u16,
    pub sem: SemType,
    pub many: bool,
    pub name: &'static str,
}

/// An owned state type and the transition that moves it by default.
#[derive(Clone, Copy, Debug)]
pub struct OwnedEntry {
    pub id: u16,
    pub kind: OwnedKind,
    pub name: &'static str,
    pub default_transition: u16,
}

/// The schema of an operation (genesis or a state transition).
pub struct OpSchema {
    pub metadata: Vec<u16>,
    pub globals: Vec<(u16, Occurs)>,
    pub inputs: Vec<(u16, Occurs)>,
    pub assignments: Vec<(u16, Occurs)>,
    pub validator: Option<Script>,
}

pub struct OpSchemaView {
    pub metadata: Seq<u16>,
    pub globals: Seq<(u16, Occurs)>,
    pub inputs: Seq<(u16, Occurs)>,
    pub assignments: Seq<(u16, Occurs)>,
    pub validator: Option<Script>,
}

impl View for OpSchema {
    type V = OpSchemaView;

    open spec fn view(&self) -> OpSchemaView {
        OpSchemaView {
            metadata: self.metadata@,
            globals: self.globals@,
            inputs: self.inputs@,
            assignments: self.assignments@,
            validator: self.validator,
        }
    }
}

/// A state transition type: its id, schema and name.
pub struct TransitionEntry {
    pub id: u16,
    pub op: OpSchema,
    pub name: &'static str,
}

pub struct TransitionView {
    pub id: u16,
    pub op: OpSchemaView,
    pub name: &'static str,
}

impl View for TransitionEntry {
    type V = TransitionView;

    open spec fn view(&self) -> TransitionView {
        TransitionView { id: self.id, op: self.op@, name: self.name }
    }
}

/// A whole contract schema.
pub struct SchemaModel {
    pub name: &'static str,
    pub meta_types: Vec<MetaEntry>,
    pub global_types: Vec<GlobalEntry>,
    pub owned_types: Vec<OwnedEntry>,
    pub genesis: OpSchema,
    pub transitions: Vec<TransitionEntry>,
    pub default_assignment: Option<u16>,
}

pub struct SchemaView {
    pub name: &'static str,
    pub meta_types: Seq<MetaEntry>,
    pub global_types: Seq<GlobalEntry>,
    pub owned_types: Seq<OwnedEntry>,
    pub genesis: OpSchemaView,
    pub transitions: Seq<TransitionView>,
    pub default_assignment: Option<u16>,
}

impl View for SchemaModel {
    type V = SchemaView;

    open spec fn view(&self) -> SchemaView {
        SchemaView {
            name: self.name,
            meta_types: self.meta_types@,
            global_types: self.global_types@,
            owned_types: self.owned_types@,
            genesis: self.genesis@,
            transitions: self.transitions@.map_values(|t: TransitionEntry| t@),
            default_assignment: self.default_assignment,
        }
    }
}

// ---------------------------------------------------------------------------------------------
// Reading the tables as maps.

/// The map that a list of `(type, occurrences)` pairs stands for: as in an ordered map built
/// from the list, a later pair for the same type replaces an earlier one.
pub open spec fn pairs_map(s: Seq<(u16, Occurs)>) -> Map<u16, Occurs>
    decreases s.len(),
{
    if s.len() == 0 {
        Map::empty()
    } else {
        pairs_map(s.drop_last()).insert(s.last().0, s.last().1)
    }
}

/// The transitions by type; a later entry for the same type replaces an earlier one.
pub open spec fn transitions_map(s: Seq<TransitionView>) -> Map<u16, TransitionView>
    decreases s.len(),
{
    if s.len() == 0 {
        Map::empty()
    } else {
        transitions_map(s.drop_last()).insert(s.last().id, s.last())
    }
}

/// The value of `k` in `m`, if any.
pub open spec fn map_get<V>(m: Map<u16, V>, k: u16) -> Option<V> {
    if m.dom().contains(k) {
        Some(m[k])
    } else {
        None
    }
}

pub open spec fn meta_ids(s: Seq<MetaEntry>) -> Seq<u16> {
    s.map_values(|e: MetaEntry| e.id)
}

pub open spec fn global_ids(s: Seq<GlobalEntry>) -> Seq<u16> {
    s.map_values(|e: GlobalEntry| e.id)
}

pub open spec fn owned_ids(s: Seq<OwnedEntry>) -> Seq<u16> {
    s.map_values(|e: OwnedEntry| e.id)
}

pub open spec fn transition_ids(s: Seq<TransitionView>) -> Seq<u16> {
    s.map_values(|t: TransitionView| t.id)
}

pub open spec fn pair_keys(s: Seq<(u16, Occurs)>) -> Seq<u16> {
    s.map_values(|p: (u16, Occurs)| p.0)
}

// ---------------------------------------------------------------------------------------------
// Identifier rules of strict encoding.

pub open spec fn is_name_tail_char(c: char) -> bool {
    ('a' <= c <= 'z') || ('A' <= c <= 'Z') || ('0' <= c <= '9') || c == '_'
}

/// All characters but the first are letters, digits or `_`.
pub open spec fn name_tail_ok(s: Seq<char>) -> bool
    decreases s.len(),
{
    s.len() <= 1 || (is_name_tail_char(s.last()) && name_tail_ok(s.drop_last()))
}

/// A valid strict-encoding field name: 1 to 100 characters, starting with a small letter or
/// `_`, followed by letters, digits or `_`.
pub open spec fn is_field_name(s: Seq<char>) -> bool {
    &&& 1 <= s.len() <= 100
    &&& ('a' <= s[0] <= 'z' || s[0] == '_')
    &&& name_tail_ok(s)
}

/// A valid strict-encoding type name: as a field name, but starting with a capital or `_`.
pub open spec fn is_type_name(s: Seq<char>) -> bool {
    &&& 1 <= s.len() <= 100
    &&& ('A' <= s[0] <= 'Z' || s[0] == '_')
    &&& name_tail_ok(s)
}

// ---------------------------------------------------------------------------------------------
// What a schema must satisfy.

/// Every entry of an operation refers to a declared type, and no operation table holds more
/// entries than a tiny ordered collection can.
pub open spec fn op_consistent(op: OpSchemaView, s: SchemaView) -> bool {
    &&& op.metadata.len() <= 255
    &&& op.globals.len() <= 255
    &&& op.inputs.len() <= 255
    &&& op.assignments.len() <= 255
    &&& forall|i: int| 0 <= i < op.metadata.len() ==> meta_ids(s.meta_types).contains(#[trigger] op.metadata[i])
    &&& forall|i: int| 0 <= i < op.globals.len() ==> global_ids(s.global_types).contains(#[trigger] op.globals[i].0)
    &&& forall|i: int| 0 <= i < op.inputs.len() ==> owned_ids(s.owned_types).contains(#[trigger] op.inputs[i].0)
    &&& forall|i: int| 0 <= i < op.assignments.len() ==> owned_ids(s.owned_types).contains(#[trigger] op.assignments[i].0)
    &&& pair_keys(op.globals).no_duplicates()
    &&& pair_keys(op.inputs).no_duplicates()
    &&& pair_keys(op.assignments).no_duplicates()
    &&& op.metadata.no_duplicates()
}

/// The schema's tables are consistent: ids are unique in each table, every reference names a
/// declared type, genesis consumes nothing, every name is a valid identifier, and each table
/// fits in a tiny ordered collection.
pub open spec fn schema_consistent(s: SchemaView) -> bool {
    &&& is_type_name(s.name@)
    &&& s.meta_types.len() <= 255
    &&& s.global_types.len() <= 255
    &&& s.owned_types.len() <= 255
    &&& s.transitions.len() <= 255
    &&& meta_ids(s.meta_types).no_duplicates()
    &&& global_ids(s.global_types).no_duplicates()
    &&& owned_ids(s.owned_types).no_duplicates()
    &&& transition_ids(s.transitions).no_duplicates()
    &&& forall|i: int| 0 <= i < s.meta_types.len() ==> is_field_name((#[trigger] s.meta_types[i]).name@)
    &&& forall|i: int| 0 <= i < s.global_types.len() ==> is_field_name((#[trigger] s.global_types[i]).name@)
    &&& forall|i: int| 0 <= i < s.owned_types.len() ==> is_field_name((#[trigger] s.owned_types[i]).name@)
    &&& forall|i: int| 0 <= i < s.transitions.len() ==> is_field_name((#[trigger] s.transitions[i]).name@)
    &&& forall|i: int| 0 <= i < s.owned_types.len() ==>
            transition_ids(s.transitions).contains((#[trigger] s.owned_types[i]).default_transition)
    &&& s.genesis.inputs.len() == 0
    &&& op_consistent(s.genesis, s)
    &&& forall|i: int| 0 <= i < s.transitions.len() ==> op_consistent((#[trigger] s.transitions[i]).op, s)
    &&& match s.default_assignment {
        Some(a) => owned_ids(s.owned_types).contains(a),
        None => true,
    }
}

/// The occurrences of owned state `ty` among the inputs of transition `t`, if the transition
/// exists and takes that state.
pub open spec fn input_of(s: SchemaView, t: u16, ty: u16) -> Option<Occurs> {
    match map_get(transitions_map(s.transitions), t) {
        Some(tr) => map_get(pairs_map(tr.op.inputs), ty),
        None => None,
    }
}

/// The occurrences of owned state `ty` among the outputs of transition `t`.
pub open spec fn output_of(s: SchemaView, t: u16, ty: u16) -> Option<Occurs> {
    match map_get(transitions_map(s.transitions), t) {
        Some(tr) => map_get(pairs_map(tr.op.assignments), ty),
        None => None,
    }
}

/// The metadata types that transition `t` carries (empty when it does not exist).
pub open spec fn metadata_of(s: SchemaView, t: u16) -> Set<u16> {
    match map_get(transitions_map(s.transitions), t) {
        Some(tr) => tr.op.metadata.to_set(),
        None => Set::empty(),
    }
}

/// The seven claim metadata types that every claim-mint carries.
pub open spec fn claim_metadata() -> Set<u16> {
    set![
        MS_CLAIM_AMOUNT,
        MS_CLAIM_CHAIN_ID,
        MS_CLAIM_CONTRACT,
        MS_CLAIM_EVENT_LOG_INDEX,
        MS_CLAIM_EVENT_TX_HASH,
        MS_CLAIM_NULLIFIER,
        MS_CLAIM_PROOF,
    ]
}

/// The rules of the claim-mint baton:
/// - genesis may issue any number of batons, so that claims can be minted in parallel;
/// - claim-mint carries all claim metadata, consumes exactly one baton and gives back exactly
///   one;
/// - grant-baton consumes exactly one baton and produces at least one, and anybody holding a
///   baton may call it (it runs no script);
/// - no other transition consumes or produces a baton.
pub open spec fn claim_baton_rules(s: SchemaView) -> bool {
    &&& map_get(pairs_map(s.genesis.assignments), OS_CLAIM_BATON) == Some(Occurs::NoneOrMore)
    &&& claim_metadata().subset_of(metadata_of(s, TS_CLAIM_MINT))
    &&& input_of(s, TS_CLAIM_MINT, OS_CLAIM_BATON) == Some(Occurs::Once)
    &&& output_of(s, TS_CLAIM_MINT, OS_CLAIM_BATON) == Some(Occurs::Once)
    &&& input_of(s, TS_GRANT_BATON, OS_CLAIM_BATON) == Some(Occurs::Once)
    &&& output_of(s, TS_GRANT_BATON, OS_CLAIM_BATON) == Some(Occurs::OnceOrMore)
    &&& match map_get(transitions_map(s.transitions), TS_GRANT_BATON) {
        Some(tr) => tr.op.validator is None,
        None => false,
    }
    &&& forall|t: u16| t != TS_CLAIM_MINT && t != TS_GRANT_BATON ==>
            input_of(s, t, OS_CLAIM_BATON) is None && output_of(s, t, OS_CLAIM_BATON) is None
}

/// The rules of supply: new assets appear only in genesis, in an inflation (which consumes
/// inflation rights and reports the issued supply) and in a claim-mint (which consumes a baton
/// and reports the issued supply); a transfer runs the transfer script, and burn and link
/// produce nothing.
pub open spec fn supply_rules(s: SchemaView) -> bool {
    &&& forall|t: u16| output_of(s, t, OS_ASSET) is Some ==>
            (t == TS_TRANSFER || t == TS_INFLATION || t == TS_CLAIM_MINT)
    &&& match map_get(transitions_map(s.transitions), TS_TRANSFER) {
        Some(tr) => tr.op.validator == Some(Script::Transfer)
            && pairs_map(tr.op.inputs) == pairs_map(tr.op.assignments),
        None => false,
    }
    &&& match map_get(transitions_map(s.transitions), TS_INFLATION) {
        Some(tr) => tr.op.validator == Some(Script::Inflation)
            && map_get(pairs_map(tr.op.inputs), OS_INFLATION) == Some(Occurs::OnceOrMore)
            && map_get(pairs_map(tr.op.globals), GS_ISSUED_SUPPLY) == Some(Occurs::Once)
            && tr.op.metadata.contains(MS_ALLOWED_INFLATION),
        None => false,
    }
    &&& match map_get(transitions_map(s.transitions), TS_CLAIM_MINT) {
        Some(tr) => tr.op.validator == Some(Script::ClaimMint)
            && map_get(pairs_map(tr.op.globals), GS_ISSUED_SUPPLY) == Some(Occurs::Once),
        None => false,
    }
    &&& s.genesis.validator == Some(Script::Genesis)
    &&& forall|ty: u16| output_of(s, TS_BURN, ty) is None && output_of(s, TS_LINK, ty) is None
}

/// The rules of linking: at most one link right exists at genesis and in a transfer, and a link
/// consumes exactly one link right and records exactly one linked-to contract.
pub open spec fn link_rules(s: SchemaView) -> bool {
    &&& map_get(pairs_map(s.genesis.assignments), OS_LINK) == Some(Occurs::NoneOrOnce)
    &&& map_get(pairs_map(s.genesis.globals), GS_LINKED_FROM_CONTRACT) == Some(Occurs::NoneOrOnce)
    &&& input_of(s, TS_TRANSFER, OS_LINK) == Some(Occurs::NoneOrOnce)
    &&& output_of(s, TS_TRANSFER, OS_LINK) == Some(Occurs::NoneOrOnce)
    &&& input_of(s, TS_LINK, OS_LINK) == Some(Occurs::Once)
    &&& match map_get(transitions_map(s.transitions), TS_LINK) {
        Some(tr) => map_get(pairs_map(tr.op.globals), GS_LINKED_TO_CONTRACT) == Some(Occurs::Once),
        None => false,
    }
}

// ---------------------------------------------------------------------------------------------
// The BIFA schema.

pub open spec fn bifa_meta_types() -> Seq<MetaEntry> {
    seq![
        MetaEntry { id: MS_ALLOWED_INFLATION, sem: SemType::Amount, name: "allowedInflation" },
        MetaEntry { id: MS_CLAIM_AMOUNT, sem: SemType::Amount, name: "claimAmount" },
        MetaEntry { id: MS_CLAIM_CHAIN_ID, sem: SemType::Amount, name: "claimChainId" },
        MetaEntry { id: MS_CLAIM_CONTRACT, sem: SemType::Details, name: "claimContract" },
        MetaEntry { id: MS_CLAIM_EVENT_LOG_INDEX, sem: SemType::Amount, name: "claimEventLogIndex" },
        MetaEntry { id: MS_CLAIM_EVENT_TX_HASH, sem: SemType::Details, name: "claimEventTxHash" },
        MetaEntry { id: MS_CLAIM_NULLIFIER, sem: SemType::Details, name: "claimNullifier" },
        MetaEntry { id: MS_CLAIM_PROOF, sem: SemType::Details, name: "claimProof" },
    ]
}

pub open spec fn bifa_global_types() -> Seq<GlobalEntry> {
    seq![
        GlobalEntry { id: GS_NOMINAL, sem: SemType::AssetSpec, many: false, name: "spec" },
        GlobalEntry { id: GS_TERMS, sem: SemType::ContractTerms, many: false, name: "terms" },
        GlobalEntry { id: GS_ISSUED_SUPPLY, sem: SemType::Amount, many: true, name: "issuedSupply" },
        GlobalEntry { id: GS_MAX_SUPPLY, sem: SemType::Amount, many: false, name: "maxSupply" },
        GlobalEntry { id: GS_REJECT_LIST_URL, sem: SemType::RejectListUrl, many: false, name: "rejectListUrl" },
        GlobalEntry { id: GS_LINKED_FROM_CONTRACT, sem: SemType::ContractId, many: false, name: "linkedFromContract" },
        GlobalEntry { id: GS_LINKED_TO_CONTRACT, sem: SemType::ContractId, many: false, name: "linkedToContract" },
        GlobalEntry { id: GS_EVM_CHAIN_ID, sem: SemType::Amount, many: false, name: "evmChainId" },
        GlobalEntry { id: GS_EVM_CLAIM_MINT_CONTRACT, sem: SemType::Details, many: false, name: "evmClaimMintContract" },
    ]
}

pub open spec fn bifa_owned_types() -> Seq<OwnedEntry> {
    seq![
        OwnedEntry { id: OS_ASSET, kind: OwnedKind::Fungible64, name: "assetOwner", default_transition: TS_TRANSFER },
        OwnedEntry { id: OS_CLAIM_BATON, kind: OwnedKind::Declarative, name: "claimMintBaton", default_transition: TS_GRANT_BATON },
        OwnedEntry { id: OS_INFLATION, kind: OwnedKind::Fungible64, name: "inflationAllowance", default_transition: TS_TRANSFER },
        OwnedEntry { id: OS_LINK, kind: OwnedKind::Declarative, name: "linkRight", default_transition: TS_TRANSFER },
    ]
}

pub open spec fn bifa_genesis() -> OpSchemaView {
    OpSchemaView {
        metadata: seq![],
        globals: seq![
            (GS_NOMINAL, Occurs::Once),
            (GS_TERMS, Occurs::Once),
            (GS_ISSUED_SUPPLY, Occurs::Once),
            (GS_MAX_SUPPLY, Occurs::Once),
            (GS_REJECT_LIST_URL, Occurs::NoneOrOnce),
            (GS_LINKED_FROM_CONTRACT, Occurs::NoneOrOnce),
            (GS_EVM_CHAIN_ID, Occurs::Once),
            (GS_EVM_CLAIM_MINT_CONTRACT, Occurs::Once),
        ],
        inputs: seq![],
        assignments: seq![
            (OS_ASSET, Occurs::NoneOrMore),
            (OS_CLAIM_BATON, Occurs::NoneOrMore),
            (OS_INFLATION, Occurs::NoneOrMore),
            (OS_LINK, Occurs::NoneOrOnce),
        ],
        validator: Some(Script::Genesis),
    }
}

/// Asset, inflation rights and at most one link right: what a transfer moves and a burn
/// destroys.
pub open spec fn bifa_movable() -> Seq<(u16, Occurs)> {
    seq![(OS_ASSET, Occurs::NoneOrMore), (OS_INFLATION, Occurs::NoneOrMore), (OS_LINK, Occurs::NoneOrOnce)]
}

pub open spec fn bifa_transfer() -> OpSchemaView {
    OpSchemaView {
        metadata: seq![],
        globals: seq![],
        inputs: bifa_movable(),
        assignments: bifa_movable(),
        validator: Some(Script::Transfer),
    }
}

pub open spec fn bifa_inflation() -> OpSchemaView {
    OpSchemaView {
        metadata: seq![MS_ALLOWED_INFLATION],
        globals: seq![(GS_ISSUED_SUPPLY, Occurs::Once)],
        inputs: seq![(OS_INFLATION, Occurs::OnceOrMore)],
        assignments: seq![(OS_ASSET, Occurs::OnceOrMore), (OS_INFLATION, Occurs::NoneOrMore)],
        validator: Some(Script::Inflation),
    }
}

pub open spec fn bifa_grant_baton() -> OpSchemaView {
    OpSchemaView {
        metadata: seq![],
        globals: seq![],
        inputs: seq![(OS_CLAIM_BATON, Occurs::Once)],
        assignments: seq![(OS_CLAIM_BATON, Occurs::OnceOrMore)],
        validator: None,
    }
}

pub open spec fn bifa_claim_mint() -> OpSchemaView {
    OpSchemaView {
        metadata: seq![
            MS_CLAIM_AMOUNT,
            MS_CLAIM_CHAIN_ID,
            MS_CLAIM_CONTRACT,
            MS_CLAIM_EVENT_LOG_INDEX,
            MS_CLAIM_EVENT_TX_HASH,
            MS_CLAIM_NULLIFIER,
            MS_CLAIM_PROOF,
        ],
        globals: seq![(GS_ISSUED_SUPPLY, Occurs::Once)],
        inputs: seq![(OS_CLAIM_BATON, Occurs::Once)],
        assignments: seq![(OS_ASSET, Occurs::OnceOrMore), (OS_CLAIM_BATON, Occurs::Once)],
        validator: Some(Script::ClaimMint),
    }
}

pub open spec fn bifa_burn() -> OpSchemaView {
    OpSchemaView {
        metadata: seq![],
        globals: seq![],
        inputs: bifa_movable(),
        assignments: seq![],
        validator: None,
    }
}

pub open spec fn bifa_link() -> OpSchemaView {
    OpSchemaView {
        metadata: seq![],
        globals: seq![(GS_LINKED_TO_CONTRACT, Occurs::Once)],
        inputs: seq![(OS_LINK, Occurs::Once)],
        assignments: seq![],
        validator: None,
    }
}

pub open spec fn bifa_transitions() -> Seq<TransitionView> {
    seq![
        TransitionView { id: TS_TRANSFER, op: bifa_transfer(), name: "transfer" },
        TransitionView { id: TS_INFLATION, op: bifa_inflation(), name: "inflate" },
        TransitionView { id: TS_GRANT_BATON, op: bifa_grant_baton(), name: "grantBaton" },
        TransitionView { id: TS_CLAIM_MINT, op: bifa_claim_mint(), name: "claimMint" },
        TransitionView { id: TS_BURN, op: bifa_burn(), name: "burn" },
        TransitionView { id: TS_LINK, op: bifa_link(), name: "link" },
    ]
}

/// The BIFA schema.
pub open spec fn bifa_schema_view() -> SchemaView {
    SchemaView {
        name: "BridgedInflatableFungibleAsset",
        meta_types: bifa_meta_types(),
        global_types: bifa_global_types(),
        owned_types: bifa_owned_types(),
        genesis: bifa_genesis(),
        transitions: bifa_transitions(),
        default_assignment: Some(OS_ASSET),
    }
}

// ---------------------------------------------------------------------------------------------
// Evaluating the rules on concrete tables.

/// Membership, computed element by element.
pub open spec fn mem(s: Seq<u16>, x: u16) -> bool
    decreases s.len(),
{
    s.len() > 0 && (s.last() == x || mem(s.drop_last(), x))
}

/// Every element of `xs` is a member of `ids`, computed element by element.
pub open spec fn all_mem(xs: Seq<u16>, ids: Seq<u16>) -> bool
    decreases xs.len(),
{
    xs.len() == 0 || (mem(ids, xs.last()) && all_mem(xs.drop_last(), ids))
}

/// No element occurs twice, computed element by element.
pub open spec fn distinct(s: Seq<u16>) -> bool
    decreases s.len(),
{
    s.len() == 0 || (!mem(s.drop_last(), s.last()) && distinct(s.drop_last()))
}

/// All names are field names, computed name by name.
pub open spec fn all_field_names(ns: Seq<Seq<char>>) -> bool
    decreases ns.len(),
{
    ns.len() == 0 || (is_field_name(ns.last()) && all_field_names(ns.drop_last()))
}

pub proof fn lemma_mem(s: Seq<u16>, x: u16)
    ensures
        mem(s, x) <==> s.contains(x),
    decreases s.len(),
{
    if s.len() > 0 {
        lemma_mem(s.drop_last(), x);
        if s.drop_last().contains(x) {
            let j = choose|j: int| 0 <= j < s.drop_last().len() && s.drop_last()[j] == x;
            assert(s[j] == x);
        }
        if s.contains(x) && s.last() != x {
            let j = choose|j: int| 0 <= j < s.len() && s[j] == x;
            assert(s.drop_last()[j] == x);
        }
        if s.last() == x {
            assert(s[s.len() - 1] == x);
        }
    }
}

pub proof fn lemma_all_mem(xs: Seq<u16>, ids: Seq<u16>)
    requires
        all_mem(xs, ids),
    ensures
        forall|i: int| 0 <= i < xs.len() ==> ids.contains(#[trigger] xs[i]),
    decreases xs.len(),
{
    if xs.len() > 0 {
        lemma_all_mem(xs.drop_last(), ids);
        lemma_mem(ids, xs.last());
        assert forall|i: int| 0 <= i < xs.len() implies ids.contains(#[trigger] xs[i]) by {
            if i < xs.len() - 1 {
                assert(xs[i] == xs.drop_last()[i]);
            }
        }
    }
}

pub proof fn lemma_distinct(s: Seq<u16>)
    requires
        distinct(s),
    ensures
        s.no_duplicates(),
    decreases s.len(),
{
    if s.len() > 0 {
        let p = s.drop_last();
        lemma_distinct(p);
        lemma_mem(p, s.last());
        assert forall|i: int, j: int| 0 <= i < s.len() && 0 <= j < s.len() && i != j implies s[i] != s[j] by {
            if i < s.len() - 1 && j < s.len() - 1 {
                assert(s[i] == p[i] && s[j] == p[j]);
            } else if i == s.len() - 1 {
                assert(s[j] == p[j]);
            } else {
                assert(s[i] == p[i]);
            }
        }
    }
}

pub proof fn lemma_all_field_names(ns: Seq<Seq<char>>)
    requires
        all_field_names(ns),
    ensures
        forall|i: int| 0 <= i < ns.len() ==> is_field_name(#[trigger] ns[i]),
    decreases ns.len(),
{
    if ns.len() > 0 {
        lemma_all_field_names(ns.drop_last());
        assert forall|i: int| 0 <= i < ns.len() implies is_field_name(#[trigger] ns[i]) by {
            if i < ns.len() - 1 {
                assert(ns[i] == ns.drop_last()[i]);
            }
        }
    }
}

proof fn lemma_op_consistent(op: OpSchemaView, s: SchemaView)
    requires
        op.metadata.len() <= 255,
        op.globals.len() <= 255,
        op.inputs.len() <= 255,
        op.assignments.len() <= 255,
        all_mem(op.metadata, meta_ids(s.meta_types)),
        all_mem(pair_keys(op.globals), global_ids(s.global_types)),
        all_mem(pair_keys(op.inputs), owned_ids(s.owned_types)),
        all_mem(pair_keys(op.assignments), owned_ids(s.owned_types)),
        distinct(op.metadata),
        distinct(pair_keys(op.globals)),
        distinct(pair_keys(op.inputs)),
        distinct(pair_keys(op.assignments)),
    ensures
        op_consistent(op, s),
{
    lemma_all_mem(op.metadata, meta_ids(s.meta_types));
    lemma_all_mem(pair_keys(op.globals), global_ids(s.global_types));
    lemma_all_mem(pair_keys(op.inputs), owned_ids(s.owned_types));
    lemma_all_mem(pair_keys(op.assignments), owned_ids(s.owned_types));
    lemma_distinct(op.metadata);
    lemma_distinct(pair_keys(op.globals));
    lemma_distinct(pair_keys(op.inputs));
    lemma_distinct(pair_keys(op.assignments));
    assert forall|i: int| 0 <= i < op.globals.len() implies global_ids(s.global_types).contains(#[trigger] op.globals[i].0) by {
        assert(pair_keys(op.globals)[i] == op.globals[i].0);
    }
    assert forall|i: int| 0 <= i < op.inputs.len() implies owned_ids(s.owned_types).contains(#[trigger] op.inputs[i].0) by {
        assert(pair_keys(op.inputs)[i] == op.inputs[i].0);
    }
    assert forall|i: int| 0 <= i < op.assignments.len() implies owned_ids(s.owned_types).contains(#[trigger] op.assignments[i].0) by {
        assert(pair_keys(op.assignments)[i] == op.assignments[i].0);
    }
}

proof fn lemma_bifa_names()
    ensures
        all_field_names(bifa_meta_types().map_values(|e: MetaEntry| e.name@)),
        all_field_names(bifa_global_types().map_values(|e: GlobalEntry| e.name@)),
        all_field_names(bifa_owned_types().map_values(|e: OwnedEntry| e.name@)),
        all_field_names(bifa_transitions().map_values(|t: TransitionView| t.name@)),
        is_type_name("BridgedInflatableFungibleAsset"@),
{
    reveal_strlit("allowedInflation");
    reveal_strlit("claimAmount");
    reveal_strlit("claimChainId");
    reveal_strlit("claimContract");
    reveal_strlit("claimEventLogIndex");
    reveal_strlit("claimEventTxHash");
    reveal_strlit("claimNullifier");
    reveal_strlit("claimProof");
    reveal_strlit("spec");
    reveal_strlit("terms");
    reveal_strlit("issuedSupply");
    reveal_strlit("maxSupply");
    reveal_strlit("rejectListUrl");
    reveal_strlit("linkedFromContract");
    reveal_strlit("linkedToContract");
    reveal_strlit("evmChainId");
    reveal_strlit("evmClaimMintContract");
    reveal_strlit("assetOwner");
    reveal_strlit("claimMintBaton");
    reveal_strlit("inflationAllowance");
    reveal_strlit("linkRight");
    reveal_strlit("transfer");
    reveal_strlit("inflate");
    reveal_strlit("grantBaton");
    reveal_strlit("claimMint");
    reveal_strlit("burn");
    reveal_strlit("link");
    reveal_strlit("BridgedInflatableFungibleAsset");
    reveal_with_fuel(name_tail_ok, 31);
    reveal_with_fuel(all_field_names, 10);
}

proof fn lemma_bifa_consistent()
    ensures
        schema_consistent(bifa_schema_view()),
{
    let s = bifa_schema_view();
    reveal_with_fuel(mem, 10);
    reveal_with_fuel(all_mem, 10);
    reveal_with_fuel(distinct, 10);
    lemma_bifa_names();
    lemma_all_field_names(s.meta_types.map_values(|e: MetaEntry| e.name@));
    lemma_all_field_names(s.global_types.map_values(|e: GlobalEntry| e.name@));
    lemma_all_field_names(s.owned_types.map_values(|e: OwnedEntry| e.name@));
    lemma_all_field_names(s.transitions.map_values(|t: TransitionView| t.name@));
    assert forall|i: int| 0 <= i < s.meta_types.len() implies is_field_name((#[trigger] s.meta_types[i]).name@) by {
        assert(s.meta_types.map_values(|e: MetaEntry| e.name@)[i] == s.meta_types[i].name@);
    }
    assert forall|i: int| 0 <= i < s.global_types.len() implies is_field_name((#[trigger] s.global_types[i]).name@) by {
        assert(s.global_types.map_values(|e: GlobalEntry| e.name@)[i] == s.global_types[i].name@);
    }
    assert forall|i: int| 0 <= i < s.owned_types.len() implies is_field_name((#[trigger] s.owned_types[i]).name@) by {
        assert(s.owned_types.map_values(|e: OwnedEntry| e.name@)[i] == s.owned_types[i].name@);
    }
    assert forall|i: int| 0 <= i < s.transitions.len() implies is_field_name((#[trigger] s.transitions[i]).name@) by {
        assert(s.transitions.map_values(|t: TransitionView| t.name@)[i] == s.transitions[i].name@);
    }
    lemma_distinct(meta_ids(s.meta_types));
    lemma_distinct(global_ids(s.global_types));
    lemma_distinct(owned_ids(s.owned_types));
    lemma_distinct(transition_ids(s.transitions));
    let dts = s.owned_types.map_values(|e: OwnedEntry| e.default_transition);
    lemma_all_mem(dts, transition_ids(s.transitions));
    assert forall|i: int| 0 <= i < s.owned_types.len() implies
        transition_ids(s.transitions).contains((#[trigger] s.owned_types[i]).default_transition) by {
        assert(dts[i] == s.owned_types[i].default_transition);
    }
    lemma_op_consistent(s.genesis, s);
    lemma_op_consistent(bifa_transfer(), s);
    lemma_op_consistent(bifa_inflation(), s);
    lemma_op_consistent(bifa_grant_baton(), s);
    lemma_op_consistent(bifa_claim_mint(), s);
    lemma_op_consistent(bifa_burn(), s);
    lemma_op_consistent(bifa_link(), s);
    assert forall|i: int| 0 <= i < s.transitions.len() implies op_consistent((#[trigger] s.transitions[i]).op, s) by {
        if i == 0 {} else if i == 1 {} else if i == 2 {} else if i == 3 {} else if i == 4 {} else {}
    }
    lemma_mem(owned_ids(s.owned_types), OS_ASSET);
}

proof fn lemma_bifa_transitions_map()
    ensures
        transitions_map(bifa_transitions()) == map![
            TS_TRANSFER => bifa_transitions()[0],
            TS_INFLATION => bifa_transitions()[1],
            TS_GRANT_BATON => bifa_transitions()[2],
            TS_CLAIM_MINT => bifa_transitions()[3],
            TS_BURN => bifa_transitions()[4],
            TS_LINK => bifa_transitions()[5],
        ],
{
    reveal_with_fuel(transitions_map, 7);
    assert(transitions_map(bifa_transitions()) =~= map![
        TS_TRANSFER => bifa_transitions()[0],
        TS_INFLATION => bifa_transitions()[1],
        TS_GRANT_BATON => bifa_transitions()[2],
        TS_CLAIM_MINT => bifa_transitions()[3],
        TS_BURN => bifa_transitions()[4],
        TS_LINK => bifa_transitions()[5],
    ]);
}

proof fn lemma_bifa_pairs_maps()
    ensures
        pairs_map(bifa_genesis().assignments) == map![
            OS_ASSET => Occurs::NoneOrMore,
            OS_CLAIM_BATON => Occurs::NoneOrMore,
            OS_INFLATION => Occurs::NoneOrMore,
            OS_LINK => Occurs::NoneOrOnce,
        ],
        pairs_map(bifa_genesis().globals).dom().contains(GS_LINKED_FROM_CONTRACT),
        pairs_map(bifa_genesis().globals)[GS_LINKED_FROM_CONTRACT] == Occurs::NoneOrOnce,
        pairs_map(bifa_movable()) == map![
            OS_ASSET => Occurs::NoneOrMore,
            OS_INFLATION => Occurs::NoneOrMore,
            OS_LINK => Occurs::NoneOrOnce,
        ],
        pairs_map(bifa_inflation().inputs) == map![OS_INFLATION => Occurs::OnceOrMore],
        pairs_map(bifa_inflation().globals) == map![GS_ISSUED_SUPPLY => Occurs::Once],
        pairs_map(bifa_inflation().assignments) == map![
            OS_ASSET => Occurs::OnceOrMore,
            OS_INFLATION => Occurs::NoneOrMore,
        ],
        pairs_map(bifa_grant_baton().inputs) == map![OS_CLAIM_BATON => Occurs::Once],
        pairs_map(bifa_grant_baton().assignments) == map![OS_CLAIM_BATON => Occurs::OnceOrMore],
        pairs_map(bifa_claim_mint().inputs) == map![OS_CLAIM_BATON => Occurs::Once],
        pairs_map(bifa_claim_mint().globals) == map![GS_ISSUED_SUPPLY => Occurs::Once],
        pairs_map(bifa_claim_mint().assignments) == map![
            OS_ASSET => Occurs::OnceOrMore,
            OS_CLAIM_BATON => Occurs::Once,
        ],
        pairs_map(bifa_link().inputs) == map![OS_LINK => Occurs::Once],
        pairs_map(bifa_link().globals) == map![GS_LINKED_TO_CONTRACT => Occurs::Once],
        pairs_map(Seq::<(u16, Occurs)>::empty()) == Map::<u16, Occurs>::empty(),
{
    reveal_with_fuel(pairs_map, 9);
    assert(pairs_map(bifa_genesis().assignments) =~= map![
        OS_ASSET => Occurs::NoneOrMore,
        OS_CLAIM_BATON => Occurs::NoneOrMore,
        OS_INFLATION => Occurs::NoneOrMore,
        OS_LINK => Occurs::NoneOrOnce,
    ]);
    assert(pairs_map(bifa_movable()) =~= map![
        OS_ASSET => Occurs::NoneOrMore,
        OS_INFLATION => Occurs::NoneOrMore,
        OS_LINK => Occurs::NoneOrOnce,
    ]);
    assert(pairs_map(bifa_inflation().inputs) =~= map![OS_INFLATION => Occurs::OnceOrMore]);
    assert(pairs_map(bifa_inflation().globals) =~= map![GS_ISSUED_SUPPLY => Occurs::Once]);
    assert(pairs_map(bifa_inflation().assignments) =~= map![
        OS_ASSET => Occurs::OnceOrMore,
        OS_INFLATION => Occurs::NoneOrMore,
    ]);
    assert(pairs_map(bifa_grant_baton().inputs) =~= map![OS_CLAIM_BATON => Occurs::Once]);
    assert(pairs_map(bifa_grant_baton().assignments) =~= map![OS_CLAIM_BATON => Occurs::OnceOrMore]);
    assert(pairs_map(bifa_claim_mint().inputs) =~= map![OS_CLAIM_BATON => Occurs::Once]);
    assert(pairs_map(bifa_claim_mint().globals) =~= map![GS_ISSUED_SUPPLY => Occurs::Once]);
    assert(pairs_map(bifa_claim_mint().assignments) =~= map![
        OS_ASSET => Occurs::OnceOrMore,
        OS_CLAIM_BATON => Occurs::Once,
    ]);
    assert(pairs_map(bifa_link().inputs) =~= map![OS_LINK => Occurs::Once]);
    assert(pairs_map(bifa_link().globals) =~= map![GS_LINKED_TO_CONTRACT => Occurs::Once]);
    assert(pairs_map(Seq::<(u16, Occurs)>::empty()) =~= Map::<u16, Occurs>::empty());
}

proof fn lemma_bifa_rules()
    ensures
        claim_baton_rules(bifa_schema_view()),
        supply_rules(bifa_schema_view()),
        link_rules(bifa_schema_view()),
{
    let s = bifa_schema_view();
    lemma_bifa_transitions_map();
    lemma_bifa_pairs_maps();
    let cm = bifa_claim_mint().metadata;
    assert forall|x: u16| claim_metadata().contains(x) implies cm.to_set().contains(x) by {
        if x == MS_CLAIM_AMOUNT { assert(cm[0] == x); }
        else if x == MS_CLAIM_CHAIN_ID { assert(cm[1] == x); }
        else if x == MS_CLAIM_CONTRACT { assert(cm[2] == x); }
        else if x == MS_CLAIM_EVENT_LOG_INDEX { assert(cm[3] == x); }
        else if x == MS_CLAIM_EVENT_TX_HASH { assert(cm[4] == x); }
        else if x == MS_CLAIM_NULLIFIER { assert(cm[5] == x); }
        else { assert(cm[6] == x); }
    }
    assert(bifa_inflation().metadata[0] == MS_ALLOWED_INFLATION);
}

// ---------------------------------------------------------------------------------------------
// Building the BIFA schema.

fn meta_types() -> (v: Vec<MetaEntry>)
    ensures
        v@ == bifa_meta_types(),
{
    let mut v: Vec<MetaEntry> = Vec::new();
    v.push(MetaEntry { id: MS_ALLOWED_INFLATION, sem: SemType::Amount, name: "allowedInflation" });
    v.push(MetaEntry { id: MS_CLAIM_AMOUNT, sem: SemType::Amount, name: "claimAmount" });
    v.push(MetaEntry { id: MS_CLAIM_CHAIN_ID, sem: SemType::Amount, name: "claimChainId" });
    v.push(MetaEntry { id: MS_CLAIM_CONTRACT, sem: SemType::Details, name: "claimContract" });
    v.push(MetaEntry { id: MS_CLAIM_EVENT_LOG_INDEX, sem: SemType::Amount, name: "claimEventLogIndex" });
    v.push(MetaEntry { id: MS_CLAIM_EVENT_TX_HASH, sem: SemType::Details, name: "claimEventTxHash" });
    v.push(MetaEntry { id: MS_CLAIM_NULLIFIER, sem: SemType::Details, name: "claimNullifier" });
    v.push(MetaEntry { id: MS_CLAIM_PROOF, sem: SemType::Details, name: "claimProof" });
    assert(v@ =~= bifa_meta_types());
    v
}

fn global_types() -> (v: Vec<GlobalEntry>)
    ensures
        v@ == bifa_global_types(),
{
    let mut v: Vec<GlobalEntry> = Vec::new();
    v.push(GlobalEntry { id: GS_NOMINAL, sem: SemType::AssetSpec, many: false, name: "spec" });
    v.push(GlobalEntry { id: GS_TERMS, sem: SemType::ContractTerms, many: false, name: "terms" });
    v.push(GlobalEntry { id: GS_ISSUED_SUPPLY, sem: SemType::Amount, many: true, name: "issuedSupply" });
    v.push(GlobalEntry { id: GS_MAX_SUPPLY, sem: SemType::Amount, many: false, name: "maxSupply" });
    v.push(GlobalEntry { id: GS_REJECT_LIST_URL, sem: SemType::RejectListUrl, many: false, name: "rejectListUrl" });
    v.push(GlobalEntry { id: GS_LINKED_FROM_CONTRACT, sem: SemType::ContractId, many: false, name: "linkedFromContract" });
    v.push(GlobalEntry { id: GS_LINKED_TO_CONTRACT, sem: SemType::ContractId, many: false, name: "linkedToContract" });
    v.push(GlobalEntry { id: GS_EVM_CHAIN_ID, sem: SemType::Amount, many: false, name: "evmChainId" });
    v.push(GlobalEntry { id: GS_EVM_CLAIM_MINT_CONTRACT, sem: SemType::Details, many: false, name: "evmClaimMintContract" });
    assert(v@ =~= bifa_global_types());
    v
}

fn owned_types() -> (v: Vec<OwnedEntry>)
    ensures
        v@ == bifa_owned_types(),
{
    let mut v: Vec<OwnedEntry> = Vec::new();
    v.push(OwnedEntry { id: OS_ASSET, kind: OwnedKind::Fungible64, name: "assetOwner", default_transition: TS_TRANSFER });
    v.push(OwnedEntry { id: OS_CLAIM_BATON, kind: OwnedKind::Declarative, name: "claimMintBaton", default_transition: TS_GRANT_BATON });
    v.push(OwnedEntry { id: OS_INFLATION, kind: OwnedKind::Fungible64, name: "inflationAllowance", default_transition: TS_TRANSFER });
    v.push(OwnedEntry { id: OS_LINK, kind: OwnedKind::Declarative, name: "linkRight", default_transition: TS_TRANSFER });
    assert(v@ =~= bifa_owned_types());
    v
}

fn genesis() -> (g: OpSchema)
    ensures
        g@ == bifa_genesis(),
{
    let mut globals: Vec<(u16, Occurs)> = Vec::new();
    globals.push((GS_NOMINAL, Occurs::Once));
    globals.push((GS_TERMS, Occurs::Once));
    globals.push((GS_ISSUED_SUPPLY, Occurs::Once));
    globals.push((GS_MAX_SUPPLY, Occurs::Once));
    globals.push((GS_REJECT_LIST_URL, Occurs::NoneOrOnce));
    globals.push((GS_LINKED_FROM_CONTRACT, Occurs::NoneOrOnce));
    globals.push((GS_EVM_CHAIN_ID, Occurs::Once));
    globals.push((GS_EVM_CLAIM_MINT_CONTRACT, Occurs::Once));
    let mut assignments: Vec<(u16, Occurs)> = Vec::new();
    assignments.push((OS_ASSET, Occurs::NoneOrMore));
    assignments.push((OS_CLAIM_BATON, Occurs::NoneOrMore));
    assignments.push((OS_INFLATION, Occurs::NoneOrMore));
    assignments.push((OS_LINK, Occurs::NoneOrOnce));
    let g = OpSchema {
        metadata: Vec::new(),
        globals,
        inputs: Vec::new(),
        assignments,
        validator: Some(Script::Genesis),
    };
    assert(g@.metadata =~= bifa_genesis().metadata);
    assert(g@.globals =~= bifa_genesis().globals);
    assert(g@.inputs =~= bifa_genesis().inputs);
    assert(g@.assignments =~= bifa_genesis().assignments);
    g
}

fn movable() -> (v: Vec<(u16, Occurs)>)
    ensures
        v@ == bifa_movable(),
{
    let mut v: Vec<(u16, Occurs)> = Vec::new();
    v.push((OS_ASSET, Occurs::NoneOrMore));
    v.push((OS_INFLATION, Occurs::NoneOrMore));
    v.push((OS_LINK, Occurs::NoneOrOnce));
    assert(v@ =~= bifa_movable());
    v
}

fn one_pair(k: u16, o: Occurs) -> (v: Vec<(u16, Occurs)>)
    ensures
        v@ == seq![(k, o)],
{
    let mut v: Vec<(u16, Occurs)> = Vec::new();
    v.push((k, o));
    assert(v@ =~= seq![(k, o)]);
    v
}

fn two_pairs(k1: u16, o1: Occurs, k2: u16, o2: Occurs) -> (v: Vec<(u16, Occurs)>)
    ensures
        v@ == seq![(k1, o1), (k2, o2)],
{
    let mut v: Vec<(u16, Occurs)> = Vec::new();
    v.push((k1, o1));
    v.push((k2, o2));
    assert(v@ =~= seq![(k1, o1), (k2, o2)]);
    v
}

fn transfer() -> (t: TransitionEntry)
    ensures
        t@ == bifa_transitions()[0],
{
    let op = OpSchema {
        metadata: Vec::new(),
        globals: Vec::new(),
        inputs: movable(),
        assignments: movable(),
        validator: Some(Script::Transfer),
    };
    assert(op@.metadata =~= bifa_transfer().metadata);
    assert(op@.globals =~= bifa_transfer().globals);
    TransitionEntry { id: TS_TRANSFER, op, name: "transfer" }
}

fn inflation() -> (t: TransitionEntry)
    ensures
        t@ == bifa_transitions()[1],
{
    let mut metadata: Vec<u16> = Vec::new();
    metadata.push(MS_ALLOWED_INFLATION);
    let op = OpSchema {
        metadata,
        globals: one_pair(GS_ISSUED_SUPPLY, Occurs::Once),
        inputs: one_pair(OS_INFLATION, Occurs::OnceOrMore),
        assignments: two_pairs(OS_ASSET, Occurs::OnceOrMore, OS_INFLATION, Occurs::NoneOrMore),
        validator: Some(Script::Inflation),
    };
    assert(op@.metadata =~= bifa_inflation().metadata);
    TransitionEntry { id: TS_INFLATION, op, name: "inflate" }
}

fn grant_baton() -> (t: TransitionEntry)
    ensures
        t@ == bifa_transitions()[2],
{
    let op = OpSchema {
        metadata: Vec::new(),
        globals: Vec::new(),
        inputs: one_pair(OS_CLAIM_BATON, Occurs::Once),
        assignments: one_pair(OS_CLAIM_BATON, Occurs::OnceOrMore),
        validator: None,
    };
    assert(op@.metadata =~= bifa_grant_baton().metadata);
    assert(op@.globals =~= bifa_grant_baton().globals);
    TransitionEntry { id: TS_GRANT_BATON, op, name: "grantBaton" }
}

fn claim_mint() -> (t: TransitionEntry)
    ensures
        t@ == bifa_transitions()[3],
{
    let mut metadata: Vec<u16> = Vec::new();
    metadata.push(MS_CLAIM_AMOUNT);
    metadata.push(MS_CLAIM_CHAIN_ID);
    metadata.push(MS_CLAIM_CONTRACT);
    metadata.push(MS_CLAIM_EVENT_LOG_INDEX);
    metadata.push(MS_CLAIM_EVENT_TX_HASH);
    metadata.push(MS_CLAIM_NULLIFIER);
    metadata.push(MS_CLAIM_PROOF);
    let op = OpSchema {
        metadata,
        globals: one_pair(GS_ISSUED_SUPPLY, Occurs::Once),
        inputs: one_pair(OS_CLAIM_BATON, Occurs::Once),
        assignments: two_pairs(OS_ASSET, Occurs::OnceOrMore, OS_CLAIM_BATON, Occurs::Once),
        validator: Some(Script::ClaimMint),
    };
    assert(op@.metadata =~= bifa_claim_mint().metadata);
    TransitionEntry { id: TS_CLAIM_MINT, op, name: "claimMint" }
}

fn burn() -> (t: TransitionEntry)
    ensures
        t@ == bifa_transitions()[4],
{
    let op = OpSchema {
        metadata: Vec::new(),
        globals: Vec::new(),
        inputs: movable(),
        assignments: Vec::new(),
        validator: None,
    };
    assert(op@.metadata =~= bifa_burn().metadata);
    assert(op@.globals =~= bifa_burn().globals);
    assert(op@.assignments =~= bifa_burn().assignments);
    TransitionEntry { id: TS_BURN, op, name: "burn" }
}

fn link() -> (t: TransitionEntry)
    ensures
        t@ == bifa_transitions()[5],
{
    let op = OpSchema {
        metadata: Vec::new(),
        globals: one_pair(GS_LINKED_TO_CONTRACT, Occurs::Once),
        inputs: one_pair(OS_LINK, Occurs::Once),
        assignments: Vec::new(),
        validator: None,
    };
    assert(op@.metadata =~= bifa_link().metadata);
    assert(op@.assignments =~= bifa_link().assignments);
    TransitionEntry { id: TS_LINK, op, name: "link" }
}

fn transitions() -> (v: Vec<TransitionEntry>)
    ensures
        v@.map_values(|t: TransitionEntry| t@) == bifa_transitions(),
{
    let mut v: Vec<TransitionEntry> = Vec::new();
    v.push(transfer());
    v.push(inflation());
    v.push(grant_baton());
    v.push(claim_mint());
    v.push(burn());
    v.push(link());
    assert(v@.map_values(|t: TransitionEntry| t@) =~= bifa_transitions());
    v
}

/// The BIFA schema as plain data.
///
/// Its tables are consistent, and it follows the claim baton, supply and linking rules.
pub fn bifa_schema_model() -> (s: SchemaModel)
    ensures
        s@ == bifa_schema_view(),
        schema_consistent(s@),
        claim_baton_rules(s@),
        supply_rules(s@),
        link_rules(s@),
{
    let s = SchemaModel {
        name: "BridgedInflatableFungibleAsset",
        meta_types: meta_types(),
        global_types: global_types(),
        owned_types: owned_types(),
        genesis: genesis(),
        transitions: transitions(),
        default_assignment: Some(OS_ASSET),
    };
    proof {
        lemma_bifa_consistent();
        lemma_bifa_rules();
    }
    s
}

// ---------------------------------------------------------------------------------------------
// Looking entries up.

/// The occurrences recorded for `ty` in a list of pairs, read as a map.
pub fn lookup_occurs(v: &Vec<(u16, Occurs)>, ty: u16) -> (r: Option<Occurs>)
    ensures
        r == map_get(pairs_map(v@), ty),
{
    let mut r: Option<Occurs> = None;
    let mut i: usize = 0;
    while i < v.len()
        invariant
            i <= v.len(),
            r == map_get(pairs_map(v@.take(i as int)), ty),
        decreases v.len() - i,
    {
        proof {
            assert(v@.take(i as int + 1).drop_last() =~= v@.take(i as int));
        }
        if v[i].0 == ty {
            r = Some(v[i].1);
        }
        i += 1;
    }
    proof {
        assert(v@.take(v.len() as int) =~= v@);
    }
    r
}

impl OpSchema {
    /// The occurrences of owned state `ty` that the operation consumes.
    pub fn input(&self, ty: u16) -> (r: Option<Occurs>)
        ensures
            r == map_get(pairs_map(self@.inputs), ty),
    {
        lookup_occurs(&self.inputs, ty)
    }

    /// The occurrences of owned state `ty` that the operation produces.
    pub fn assignment(&self, ty: u16) -> (r: Option<Occurs>)
        ensures
            r == map_get(pairs_map(self@.assignments), ty),
    {
        lookup_occurs(&self.assignments, ty)
    }

    /// The occurrences of global state `ty` that the operation defines.
    pub fn global(&self, ty: u16) -> (r: Option<Occurs>)
        ensures
            r == map_get(pairs_map(self@.globals), ty),
    {
        lookup_occurs(&self.globals, ty)
    }

    /// Whether the operation carries metadata `ty`.
    pub fn has_metadata(&self, ty: u16) -> (r: bool)
        ensures
            r == self@.metadata.contains(ty),
    {
        let mut i: usize = 0;
        while i < self.metadata.len()
            invariant
                i <= self.metadata.len(),
                forall|j: int| 0 <= j < i ==> self.metadata@[j] != ty,
            decreases self.metadata.len() - i,
        {
            if self.metadata[i] == ty {
                return true;
            }
            i += 1;
        }
        false
    }
}

impl SchemaModel {
    /// The transition of type `ty`, if the schema has one.
    pub fn transition(&self, ty: u16) -> (r: Option<&TransitionEntry>)
        ensures
            match r {
                Some(t) => map_get(transitions_map(self@.transitions), ty) == Some(t@),
                None => map_get(transitions_map(self@.transitions), ty) is None,
            },
    {
        let ghost views = self@.transitions;
        let mut found: Option<usize> = None;
        let mut i: usize = 0;
        while i < self.transitions.len()
            invariant
                i <= self.transitions.len(),
                views == self.transitions@.map_values(|t: TransitionEntry| t@),
                match found {
                    Some(j) => j < i && map_get(transitions_map(views.take(i as int)), ty)
                        == Some(self.transitions@[j as int]@),
                    None => map_get(transitions_map(views.take(i as int)), ty) is None,
                },
            decreases self.transitions.len() - i,
        {
            proof {
                assert(views.take(i as int + 1).drop_last() =~= views.take(i as int));
                assert(views.take(i as int + 1).last() == self.transitions@[i as int]@);
            }
            if self.transitions[i].id == ty {
                found = Some(i);
            }
            i += 1;
        }
        proof {
            assert(views.take(self.transitions.len() as int) =~= views);
        }
        match found {
            Some(j) => Some(&self.transitions[j]),
            None => None,
        }
    }
}

} // verus!
