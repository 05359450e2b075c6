//! The contract emitter: one parameterized generator covering both the
//! statement-flavoured and the obligation-flavoured contract scaffolds.

use vstd::prelude::*;
use vstd::string::StringExecFns;

use crate::imports::gen_imports;
use crate::imports::lemma_kept_push;
use crate::imports::spec_base_path;
use crate::imports::spec_arbiter_symbols;
use crate::imports::spec_arbiter_utils_symbols;
use crate::imports::spec_base_symbols;
use crate::imports::spec_common_symbols;
use crate::imports::spec_eas_symbols;
use crate::imports::spec_import_block;
use crate::imports::spec_import_line;
use crate::imports::spec_kept;
use crate::imports::spec_schema_registry_symbols;
use crate::imports::Symbol;
use crate::text::append_field_lines;
use crate::text::push_dec;
use crate::text::spec_dec;
use crate::text::spec_field_lines;

verus! {

/// The vocabulary a generated contract is phrased in: its base-contract
/// type, data-struct type, issuing-function name, and the identifiers used
/// in generated comments and parameters all substitute this noun.
#[derive(Clone, Copy, PartialEq, Eq, Structural, Debug)]
pub enum RoleNoun {
    Statement,
    Obligation,
}

/// The role noun as it appears in type and function names.
pub open spec fn spec_role_name(role: RoleNoun) -> Seq<char> {
    match role {
        RoleNoun::Statement => "Statement"@,
        RoleNoun::Obligation => "Obligation"@,
    }
}

/// The role noun as it appears in comments and parameter names.
pub open spec fn spec_role_lower(role: RoleNoun) -> Seq<char> {
    match role {
        RoleNoun::Statement => "statement"@,
        RoleNoun::Obligation => "obligation"@,
    }
}

/// The language-version pragma each flavour emits: the statement flavour
/// pins the compiler version exactly, the obligation flavour accepts any
/// later patch release.
pub open spec fn spec_role_pragma(role: RoleNoun) -> Seq<char> {
    match role {
        RoleNoun::Statement => "pragma solidity 0.8.26;"@,
        RoleNoun::Obligation => "pragma solidity ^0.8.26;"@,
    }
}

/// The role noun as it appears in type and function names.
pub fn role_name(role: RoleNoun) -> (r: &'static str)
    ensures
        r@ == spec_role_name(role),
{
    match role {
        RoleNoun::Statement => "Statement",
        RoleNoun::Obligation => "Obligation",
    }
}

/// The role noun as it appears in comments and parameter names.
pub fn role_lower(role: RoleNoun) -> (r: &'static str)
    ensures
        r@ == spec_role_lower(role),
{
    match role {
        RoleNoun::Statement => "statement",
        RoleNoun::Obligation => "obligation",
    }
}

/// The language-version pragma for the given flavour.
pub fn role_pragma(role: RoleNoun) -> (r: &'static str)
    ensures
        r@ == spec_role_pragma(role),
{
    match role {
        RoleNoun::Statement => "pragma solidity 0.8.26;",
        RoleNoun::Obligation => "pragma solidity ^0.8.26;",
    }
}

/// The boolean literal emitted into generated source text.
pub open spec fn spec_bool_text(b: bool) -> Seq<char> {
    if b {
        "true"@
    } else {
        "false"@
    }
}

/// The boolean literal emitted into generated source text.
pub fn bool_text(b: bool) -> (r: &'static str)
    ensures
        r@ == spec_bool_text(b),
{
    if b {
        "true"
    } else {
        "false"
    }
}

/// The configuration of one generated contract.
pub struct GenObligationOpts {
    /// The generated contract's identifier.
    pub name: String,
    /// Whether the contract also implements the arbiter capability.
    pub is_arbiter: bool,
    /// Whether issued attestations may later be revoked.
    pub is_revocable: bool,
    /// How many finalization functions to emit.
    pub finalization_terms: usize,
    /// Comma-separated "type name" pairs for the primary data struct,
    /// passed through verbatim.
    pub obligation_data: String,
    /// Comma-separated "type name" pairs for the optional demand struct; an
    /// empty string omits that struct entirely.
    pub demand_data: String,
}

/// The mathematical value of a configuration.
pub ghost struct ConfigView {
    pub name: Seq<char>,
    pub is_arbiter: bool,
    pub is_revocable: bool,
    pub finalization_terms: nat,
    pub obligation_data: Seq<char>,
    pub demand_data: Seq<char>,
}

impl View for GenObligationOpts {
    type V = ConfigView;

    open spec fn view(&self) -> ConfigView {
        ConfigView {
            name: self.name@,
            is_arbiter: self.is_arbiter,
            is_revocable: self.is_revocable,
            finalization_terms: self.finalization_terms as nat,
            obligation_data: self.obligation_data@,
            demand_data: self.demand_data@,
        }
    }
}

/// The symbols a generated contract needs to import: the base contract,
/// the attestation service, the schema registry and the attestation
/// request types always; the arbiter symbols only with the arbiter
/// capability; the revocation request types only when revocable.
pub open spec fn spec_requested(is_arbiter: bool, is_revocable: bool) -> Seq<Symbol> {
    seq![
        Symbol::BaseContract,
        Symbol::IEas,
        Symbol::ISchemaRegistry,
        Symbol::Attestation,
        Symbol::AttestationRequest,
        Symbol::AttestationRequestData,
    ] + (if is_arbiter {
        seq![Symbol::IArbiter, Symbol::ArbiterUtils]
    } else {
        Seq::empty()
    }) + (if is_revocable {
        seq![Symbol::RevocationRequest, Symbol::RevocationRequestData]
    } else {
        Seq::empty()
    })
}

/// The fixed header: license line, pragma line, a blank line, the import
/// block, and a blank line before the contract declaration.
pub open spec fn spec_header(role: RoleNoun, is_arbiter: bool, is_revocable: bool) -> Seq<char> {
    "// SPDX-License-Identifier: UNLICENSED\n"@ + spec_role_pragma(role) + "\n\n"@
        + spec_import_block(spec_requested(is_arbiter, is_revocable), role) + "\n"@
}

/// The contract declaration, naming the arbiter interface as a further
/// base exactly when the arbiter capability is on.
pub open spec fn spec_contract_open(role: RoleNoun, name: Seq<char>, is_arbiter: bool) -> Seq<
    char,
> {
    "contract "@ + name + " is Base"@ + spec_role_name(role) + (if is_arbiter {
        ", IArbiter"@
    } else {
        Seq::empty()
    }) + " {\n"@
}

/// The using-directive attaching the arbiter utilities to the attestation
/// record type; present exactly when the arbiter capability is on.
pub open spec fn spec_using_directive(is_arbiter: bool) -> Seq<char> {
    if is_arbiter {
        "  using ArbiterUtils for Attestation;\n\n"@
    } else {
        Seq::empty()
    }
}

/// The primary data struct, its body derived from the comma-separated
/// field list.
pub open spec fn spec_data_struct(role: RoleNoun, fields: Seq<char>) -> Seq<char> {
    "  struct "@ + spec_role_name(role) + "Data {\n    "@ + spec_field_lines(fields)
        + ";\n  }\n\n"@
}

/// The optional demand struct: omitted entirely when the field list is
/// empty.
pub open spec fn spec_demand_struct(fields: Seq<char>) -> Seq<char> {
    if fields.len() == 0 {
        Seq::empty()
    } else {
        "  struct DemandData {\n    "@ + spec_field_lines(fields) + ";\n  }\n\n"@
    }
}

/// The constructor: forwards the service handles, the verbatim field list
/// and the revocability flag to the base contract, with an empty body.
pub open spec fn spec_constructor_text(
    role: RoleNoun,
    fields: Seq<char>,
    is_revocable: bool,
) -> Seq<char> {
    "  constructor(IEAS _eas, ISchemaRegistry _schemaRegistry) Base"@ + spec_role_name(role)
        + "(_eas, _schemaRegistry, \""@ + fields + "\", "@ + spec_bool_text(is_revocable)
        + ") {}\n\n"@
}

/// The attestation-issuing function; its revocable flag mirrors the
/// configuration's revocability.
pub open spec fn spec_issue_fn(role: RoleNoun, is_revocable: bool) -> Seq<char> {
    "  function make"@ + spec_role_name(role) + "("@ + spec_role_name(role)
        + "Data calldata data, uint64 expirationTime, bytes32 fulfilling) public returns (bytes32) {\n    // implement custom "@
        + spec_role_lower(role)
        + " logic here\n    //...\n    return eas.attest(AttestationRequest({\n      schema: ATTESTATION_SCHEMA,\n      data: AttestationRequestData({\n        recipient: msg.sender,\n        expirationTime: expirationTime,\n        revocable: "@
        + spec_bool_text(is_revocable)
        + ",\n        refUID: fulfilling,\n        data: abi.encode(data),\n        value: 0\n      })\n    }));\n  }\n\n"@
}

/// The finalization function with numeric suffix `i`.
pub open spec fn spec_finalize_fn(role: RoleNoun, i: nat) -> Seq<char> {
    "  function finalize_"@ + spec_dec(i) + "(bytes32 "@ + spec_role_lower(role)
        + " /*, bytes32 fulfillment, ...*/) public returns (bool) {\n    // implement custom finalization term (e.g. cancellation or completion) pre-conditions here\n    //...\n    eas.revoke(RevocationRequest({\n      schema: ATTESTATION_SCHEMA,\n      data: RevocationRequestData({\n        uid: "@
        + spec_role_lower(role)
        + ",\n        value: 0\n      })\n    }));\n    // implement custom finalization term (e.g. cancellation or completion) post-conditions here\n    //...\n    return true;\n  }\n\n"@
}

/// The finalization functions with suffixes `0` up to `n - 1`, in
/// ascending order.
pub open spec fn spec_finalize_all(role: RoleNoun, n: nat) -> Seq<char>
    decreases n,
{
    if n == 0 {
        Seq::empty()
    } else {
        spec_finalize_all(role, (n - 1) as nat) + spec_finalize_fn(role, (n - 1) as nat)
    }
}

/// The complete contract source text for one configuration.
pub open spec fn spec_contract_text(role: RoleNoun, c: ConfigView) -> Seq<char> {
    spec_header(role, c.is_arbiter, c.is_revocable) + spec_contract_open(
        role,
        c.name,
        c.is_arbiter,
    ) + spec_using_directive(c.is_arbiter) + spec_data_struct(role, c.obligation_data)
        + spec_demand_struct(c.demand_data) + spec_constructor_text(
        role,
        c.obligation_data,
        c.is_revocable,
    ) + spec_issue_fn(role, c.is_revocable) + spec_finalize_all(role, c.finalization_terms)
        + "}"@
}

/// Appends the fixed header: license, pragma, a blank line, the import
/// block for the configuration's feature flags, and a closing blank line.
fn append_header(out: &mut String, role: RoleNoun, is_arbiter: bool, is_revocable: bool)
    ensures
        final(out)@ == old(out)@ + spec_header(role, is_arbiter, is_revocable),
{
    let mut req: Vec<Symbol> = Vec::new();
    req.push(Symbol::BaseContract);
    req.push(Symbol::IEas);
    req.push(Symbol::ISchemaRegistry);
    req.push(Symbol::Attestation);
    req.push(Symbol::AttestationRequest);
    req.push(Symbol::AttestationRequestData);
    if is_arbiter {
        req.push(Symbol::IArbiter);
        req.push(Symbol::ArbiterUtils);
    }
    if is_revocable {
        req.push(Symbol::RevocationRequest);
        req.push(Symbol::RevocationRequestData);
    }
    proof {
        assert(req@ =~= spec_requested(is_arbiter, is_revocable));
    }
    out.append("// SPDX-License-Identifier: UNLICENSED\n");
    out.append(role_pragma(role));
    out.append("\n\n");
    let import_block = gen_imports(&req, role);
    out.append(import_block.as_str());
    out.append("\n");
    proof {
        assert(out@ =~= old(out)@ + spec_header(role, is_arbiter, is_revocable));
    }
}

/// Appends the contract declaration and, with the arbiter capability, the
/// using-directive right after the opening brace.
fn append_contract_open(out: &mut String, role: RoleNoun, name: &str, is_arbiter: bool)
    ensures
        final(out)@ == old(out)@ + spec_contract_open(role, name@, is_arbiter)
            + spec_using_directive(is_arbiter),
{
    out.append("contract ");
    out.append(name);
    out.append(" is Base");
    out.append(role_name(role));
    if is_arbiter {
        out.append(", IArbiter");
    }
    out.append(" {\n");
    if is_arbiter {
        out.append("  using ArbiterUtils for Attestation;\n\n");
    }
    proof {
        assert(out@ =~= old(out)@ + spec_contract_open(role, name@, is_arbiter)
            + spec_using_directive(is_arbiter));
    }
}

/// Appends the primary data struct and, when its field list is non-empty,
/// the demand struct.
fn append_structs(out: &mut String, role: RoleNoun, fields: &str, demand: &str)
    ensures
        final(out)@ == old(out)@ + spec_data_struct(role, fields@) + spec_demand_struct(demand@),
{
    out.append("  struct ");
    out.append(role_name(role));
    out.append("Data {\n    ");
    append_field_lines(out, fields);
    out.append(";\n  }\n\n");
    proof {
        assert(out@ =~= old(out)@ + spec_data_struct(role, fields@));
    }
    if !demand.is_empty() {
        out.append("  struct DemandData {\n    ");
        append_field_lines(out, demand);
        out.append(";\n  }\n\n");
    }
    proof {
        assert(out@ =~= old(out)@ + spec_data_struct(role, fields@) + spec_demand_struct(
            demand@,
        ));
    }
}

/// Appends the constructor, forwarding the verbatim field list and the
/// revocability flag to the base contract.
fn append_constructor(out: &mut String, role: RoleNoun, fields: &str, is_revocable: bool)
    ensures
        final(out)@ == old(out)@ + spec_constructor_text(role, fields@, is_revocable),
{
    out.append("  constructor(IEAS _eas, ISchemaRegistry _schemaRegistry) Base");
    out.append(role_name(role));
    out.append("(_eas, _schemaRegistry, \"");
    out.append(fields);
    out.append("\", ");
    out.append(bool_text(is_revocable));
    out.append(") {}\n\n");
    proof {
        assert(out@ =~= old(out)@ + spec_constructor_text(role, fields@, is_revocable));
    }
}

/// Appends the attestation-issuing function.
fn append_issue_fn(out: &mut String, role: RoleNoun, is_revocable: bool)
    ensures
        final(out)@ == old(out)@ + spec_issue_fn(role, is_revocable),
{
    out.append("  function make");
    out.append(role_name(role));
    out.append("(");
    out.append(role_name(role));
    out.append(
        "Data calldata data, uint64 expirationTime, bytes32 fulfilling) public returns (bytes32) {\n    // implement custom ",
    );
    out.append(role_lower(role));
    out.append(
        " logic here\n    //...\n    return eas.attest(AttestationRequest({\n      schema: ATTESTATION_SCHEMA,\n      data: AttestationRequestData({\n        recipient: msg.sender,\n        expirationTime: expirationTime,\n        revocable: ",
    );
    out.append(bool_text(is_revocable));
    out.append(
        ",\n        refUID: fulfilling,\n        data: abi.encode(data),\n        value: 0\n      })\n    }));\n  }\n\n",
    );
    proof {
        assert(out@ =~= old(out)@ + spec_issue_fn(role, is_revocable));
    }
}

/// Appends the finalization function with numeric suffix `i`.
fn append_finalize_fn(out: &mut String, role: RoleNoun, i: usize)
    ensures
        final(out)@ == old(out)@ + spec_finalize_fn(role, i as nat),
{
    out.append("  function finalize_");
    push_dec(out, i);
    out.append("(bytes32 ");
    out.append(role_lower(role));
    out.append(
        " /*, bytes32 fulfillment, ...*/) public returns (bool) {\n    // implement custom finalization term (e.g. cancellation or completion) pre-conditions here\n    //...\n    eas.revoke(RevocationRequest({\n      schema: ATTESTATION_SCHEMA,\n      data: RevocationRequestData({\n        uid: ",
    );
    out.append(role_lower(role));
    out.append(
        ",\n        value: 0\n      })\n    }));\n    // implement custom finalization term (e.g. cancellation or completion) post-conditions here\n    //...\n    return true;\n  }\n\n",
    );
    proof {
        assert(out@ =~= old(out)@ + spec_finalize_fn(role, i as nat));
    }
}

/// Appends the finalization functions with suffixes `0` to `n - 1`, in
/// ascending order.
fn append_finalize_all(out: &mut String, role: RoleNoun, n: usize)
    ensures
        final(out)@ == old(out)@ + spec_finalize_all(role, n as nat),
{
    let mut i: usize = 0;
    while i < n
        invariant
            i <= n,
            out@ == old(out)@ + spec_finalize_all(role, i as nat),
        decreases n - i,
    {
        append_finalize_fn(out, role, i);
        i += 1;
        proof {
            assert(out@ =~= old(out)@ + spec_finalize_all(role, i as nat));
        }
    }
}

/// Generates the complete contract source text for one configuration in
/// the given flavour.  The output is pinned, byte for byte, by
/// `spec_contract_text`.
pub fn gen_contract(role: RoleNoun, opts: GenObligationOpts) -> (out: String)
    ensures
        out@ == spec_contract_text(role, opts@),
{
    let mut out = String::new();
    append_header(&mut out, role, opts.is_arbiter, opts.is_revocable);
    append_contract_open(&mut out, role, opts.name.as_str(), opts.is_arbiter);
    append_structs(&mut out, role, opts.obligation_data.as_str(), opts.demand_data.as_str());
    append_constructor(&mut out, role, opts.obligation_data.as_str(), opts.is_revocable);
    append_issue_fn(&mut out, role, opts.is_revocable);
    append_finalize_all(&mut out, role, opts.finalization_terms);
    out.append("}");
    proof {
        assert(out@ =~= spec_contract_text(role, opts@));
    }
    out
}

/// Law: generation is deterministic.  Two configurations with equal
/// values map to the same output text; together with `gen_contract`'s
/// postcondition this pins every generated string to its configuration
/// alone.
pub proof fn lemma_deterministic(role: RoleNoun, c1: ConfigView, c2: ConfigView)
    requires
        c1 == c2,
    ensures
        spec_contract_text(role, c1) == spec_contract_text(role, c2),
{
}

/// Which symbols the requested set of a configuration holds: the six
/// always-needed ones, the arbiter pair exactly with the arbiter flag,
/// and the revocation pair exactly with the revocability flag.
proof fn lemma_requested_contains(a: bool, r: bool)
    ensures
        spec_requested(a, r).contains(Symbol::BaseContract),
        spec_requested(a, r).contains(Symbol::IEas),
        spec_requested(a, r).contains(Symbol::ISchemaRegistry),
        spec_requested(a, r).contains(Symbol::Attestation),
        spec_requested(a, r).contains(Symbol::AttestationRequest),
        spec_requested(a, r).contains(Symbol::AttestationRequestData),
        spec_requested(a, r).contains(Symbol::IArbiter) == a,
        spec_requested(a, r).contains(Symbol::ArbiterUtils) == a,
        spec_requested(a, r).contains(Symbol::RevocationRequest) == r,
        spec_requested(a, r).contains(Symbol::RevocationRequestData) == r,
{
    let req = spec_requested(a, r);
    assert(req[0] == Symbol::BaseContract);
    assert(req[1] == Symbol::IEas);
    assert(req[2] == Symbol::ISchemaRegistry);
    assert(req[3] == Symbol::Attestation);
    assert(req[4] == Symbol::AttestationRequest);
    assert(req[5] == Symbol::AttestationRequestData);
    if a {
        assert(req[6] == Symbol::IArbiter);
        assert(req[7] == Symbol::ArbiterUtils);
    }
    if r {
        let k: int = if a { 8 } else { 6 };
        assert(req[k] == Symbol::RevocationRequest);
        assert(req[k + 1] == Symbol::RevocationRequestData);
    }
    if !a {
        assert(forall|i: int| 0 <= i < req.len() ==> req[i] != Symbol::IArbiter);
        assert(forall|i: int| 0 <= i < req.len() ==> req[i] != Symbol::ArbiterUtils);
    }
    if !r {
        assert(forall|i: int| 0 <= i < req.len() ==> req[i] != Symbol::RevocationRequest);
        assert(forall|i: int| 0 <= i < req.len() ==> req[i] != Symbol::RevocationRequestData);
    }
}

/// The requested symbols of each module's table entry, evaluated for a
/// configuration's feature flags.
proof fn lemma_kept_for_flags(a: bool, r: bool)
    ensures
        spec_kept(spec_common_symbols(), spec_requested(a, r)) == spec_common_symbols(),
        spec_kept(spec_eas_symbols(), spec_requested(a, r)) == (if r {
            spec_eas_symbols()
        } else {
            seq![Symbol::IEas, Symbol::AttestationRequest, Symbol::AttestationRequestData]
        }),
        spec_kept(spec_schema_registry_symbols(), spec_requested(a, r))
            == spec_schema_registry_symbols(),
        spec_kept(spec_base_symbols(), spec_requested(a, r)) == spec_base_symbols(),
        spec_kept(spec_arbiter_symbols(), spec_requested(a, r)) == (if a {
            spec_arbiter_symbols()
        } else {
            Seq::<Symbol>::empty()
        }),
        spec_kept(spec_arbiter_utils_symbols(), spec_requested(a, r)) == (if a {
            spec_arbiter_utils_symbols()
        } else {
            Seq::<Symbol>::empty()
        }),
{
    let req = spec_requested(a, r);
    lemma_requested_contains(a, r);

    let e0 = Seq::<Symbol>::empty();
    assert(spec_kept(e0, req) == e0);

    assert(spec_common_symbols() =~= e0.push(Symbol::Attestation));
    lemma_kept_push(e0, Symbol::Attestation, req);
    assert(spec_kept(spec_common_symbols(), req) =~= spec_common_symbols());

    let e1 = e0.push(Symbol::IEas);
    let e2 = e1.push(Symbol::AttestationRequest);
    let e3 = e2.push(Symbol::AttestationRequestData);
    let e4 = e3.push(Symbol::RevocationRequest);
    let e5 = e4.push(Symbol::RevocationRequestData);
    assert(spec_eas_symbols() =~= e5);
    lemma_kept_push(e0, Symbol::IEas, req);
    lemma_kept_push(e1, Symbol::AttestationRequest, req);
    lemma_kept_push(e2, Symbol::AttestationRequestData, req);
    lemma_kept_push(e3, Symbol::RevocationRequest, req);
    lemma_kept_push(e4, Symbol::RevocationRequestData, req);
    if r {
        assert(spec_kept(spec_eas_symbols(), req) =~= spec_eas_symbols());
    } else {
        assert(spec_kept(spec_eas_symbols(), req) =~= seq![
            Symbol::IEas,
            Symbol::AttestationRequest,
            Symbol::AttestationRequestData,
        ]);
    }

    assert(spec_schema_registry_symbols() =~= e0.push(Symbol::ISchemaRegistry));
    lemma_kept_push(e0, Symbol::ISchemaRegistry, req);
    assert(spec_kept(spec_schema_registry_symbols(), req) =~= spec_schema_registry_symbols());

    assert(spec_base_symbols() =~= e0.push(Symbol::BaseContract));
    lemma_kept_push(e0, Symbol::BaseContract, req);
    assert(spec_kept(spec_base_symbols(), req) =~= spec_base_symbols());

    assert(spec_arbiter_symbols() =~= e0.push(Symbol::IArbiter));
    lemma_kept_push(e0, Symbol::IArbiter, req);
    if a {
        assert(spec_kept(spec_arbiter_symbols(), req) =~= spec_arbiter_symbols());
    } else {
        assert(spec_kept(spec_arbiter_symbols(), req) =~= e0);
    }

    assert(spec_arbiter_utils_symbols() =~= e0.push(Symbol::ArbiterUtils));
    lemma_kept_push(e0, Symbol::ArbiterUtils, req);
    if a {
        assert(spec_kept(spec_arbiter_utils_symbols(), req) =~= spec_arbiter_utils_symbols());
    } else {
        assert(spec_kept(spec_arbiter_utils_symbols(), req) =~= e0);
    }
}

/// Law: the import block holds exactly the modules with a requested
/// symbol.  The attestation-record, attestation-service, schema-registry
/// and base-contract statements are always present; the two arbiter
/// statements are present exactly with the arbiter flag; and the
/// attestation-service statement lists the revocation request types
/// exactly with the revocability flag.
pub proof fn lemma_import_minimality(role: RoleNoun, a: bool, r: bool)
    ensures
        ({
            let req = spec_requested(a, r);
            &&& spec_import_line(spec_common_symbols(), req, "@eas/Common.sol"@, role).len() > 0
            &&& spec_import_line(spec_eas_symbols(), req, "@eas/IEAS.sol"@, role).len() > 0
            &&& spec_import_line(
                spec_schema_registry_symbols(),
                req,
                "@eas/ISchemaRegistry.sol"@,
                role,
            ).len() > 0
            &&& spec_import_line(spec_base_symbols(), req, spec_base_path(role), role).len() > 0
            &&& (spec_import_line(spec_arbiter_symbols(), req, "../IArbiter.sol"@, role).len()
                > 0) == a
            &&& (spec_import_line(
                spec_arbiter_utils_symbols(),
                req,
                "../ArbiterUtils.sol"@,
                role,
            ).len() > 0) == a
            &&& spec_kept(spec_eas_symbols(), req).contains(Symbol::RevocationRequest) == r
            &&& spec_kept(spec_eas_symbols(), req).contains(Symbol::RevocationRequestData) == r
        }),
{
    let req = spec_requested(a, r);
    lemma_kept_for_flags(a, r);
    reveal_strlit("import {");
    if r {
        assert(spec_kept(spec_eas_symbols(), req)[3] == Symbol::RevocationRequest);
        assert(spec_kept(spec_eas_symbols(), req)[4] == Symbol::RevocationRequestData);
    }
}

/// A piece embedded between two others sits at the offset given by the
/// prefix's length.
proof fn lemma_piece_at(prefix: Seq<char>, mid: Seq<char>, suffix: Seq<char>)
    ensures
        (prefix + mid + suffix).subrange(
            prefix.len() as int,
            (prefix.len() + mid.len()) as int,
        ) == mid,
{
    assert((prefix + mid + suffix).subrange(prefix.len() as int, (prefix.len() + mid.len()) as int)
        =~= mid);
}

/// Law: the conditional pieces of the output stand or fall with their
/// flags.  With the arbiter flag the output carries the using-directive
/// right after the contract's opening line, and the contract's base list
/// names the arbiter interface; without it both pieces are absent and the
/// output is the plain concatenation of the remaining sections.  The
/// demand struct appears exactly when its field list is non-empty.  (For
/// the revocation-type imports see `lemma_import_minimality`.)
pub proof fn lemma_conditional_sections(role: RoleNoun, c: ConfigView)
    ensures
        c.is_arbiter ==> ({
            let text = spec_contract_text(role, c);
            let off = spec_header(role, c.is_arbiter, c.is_revocable).len()
                + spec_contract_open(role, c.name, c.is_arbiter).len();
            let directive = "  using ArbiterUtils for Attestation;\n\n"@;
            &&& off + directive.len() <= text.len()
            &&& text.subrange(off as int, (off + directive.len()) as int) == directive
            &&& spec_contract_open(role, c.name, c.is_arbiter) == "contract "@ + c.name
                + " is Base"@ + spec_role_name(role) + ", IArbiter"@ + " {\n"@
        }),
        !c.is_arbiter ==> spec_contract_text(role, c) == spec_header(
            role,
            c.is_arbiter,
            c.is_revocable,
        ) + ("contract "@ + c.name + " is Base"@ + spec_role_name(role) + " {\n"@)
            + spec_data_struct(role, c.obligation_data) + spec_demand_struct(c.demand_data)
            + spec_constructor_text(role, c.obligation_data, c.is_revocable) + spec_issue_fn(
            role,
            c.is_revocable,
        ) + spec_finalize_all(role, c.finalization_terms) + "}"@,
        c.demand_data.len() == 0 ==> spec_contract_text(role, c) == spec_header(
            role,
            c.is_arbiter,
            c.is_revocable,
        ) + spec_contract_open(role, c.name, c.is_arbiter) + spec_using_directive(c.is_arbiter)
            + spec_data_struct(role, c.obligation_data) + spec_constructor_text(
            role,
            c.obligation_data,
            c.is_revocable,
        ) + spec_issue_fn(role, c.is_revocable) + spec_finalize_all(role, c.finalization_terms)
            + "}"@,
        c.demand_data.len() > 0 ==> ({
            let text = spec_contract_text(role, c);
            let off = spec_header(role, c.is_arbiter, c.is_revocable).len()
                + spec_contract_open(role, c.name, c.is_arbiter).len() + spec_using_directive(
                c.is_arbiter,
            ).len() + spec_data_struct(role, c.obligation_data).len();
            let block = spec_demand_struct(c.demand_data);
            &&& off + block.len() <= text.len()
            &&& text.subrange(off as int, (off + block.len()) as int) == block
            &&& block == "  struct DemandData {\n    "@ + spec_field_lines(c.demand_data)
                + ";\n  }\n\n"@
        }),
{
    let text = spec_contract_text(role, c);
    if c.is_arbiter {
        let prefix = spec_header(role, c.is_arbiter, c.is_revocable) + spec_contract_open(
            role,
            c.name,
            c.is_arbiter,
        );
        let directive = "  using ArbiterUtils for Attestation;\n\n"@;
        let suffix = spec_data_struct(role, c.obligation_data) + spec_demand_struct(
            c.demand_data,
        ) + spec_constructor_text(role, c.obligation_data, c.is_revocable) + spec_issue_fn(
            role,
            c.is_revocable,
        ) + spec_finalize_all(role, c.finalization_terms) + "}"@;
        assert(text =~= prefix + directive + suffix);
        lemma_piece_at(prefix, directive, suffix);
        assert(spec_contract_open(role, c.name, c.is_arbiter) =~= "contract "@ + c.name
            + " is Base"@ + spec_role_name(role) + ", IArbiter"@ + " {\n"@);
    } else {
        assert(spec_contract_open(role, c.name, c.is_arbiter) =~= "contract "@ + c.name
            + " is Base"@ + spec_role_name(role) + " {\n"@);
        assert(spec_using_directive(c.is_arbiter) == Seq::<char>::empty());
        assert(text =~= spec_header(role, c.is_arbiter, c.is_revocable) + ("contract "@ + c.name
            + " is Base"@ + spec_role_name(role) + " {\n"@) + spec_data_struct(
            role,
            c.obligation_data,
        ) + spec_demand_struct(c.demand_data) + spec_constructor_text(
            role,
            c.obligation_data,
            c.is_revocable,
        ) + spec_issue_fn(role, c.is_revocable) + spec_finalize_all(role, c.finalization_terms)
            + "}"@);
    }
    if c.demand_data.len() == 0 {
        assert(spec_demand_struct(c.demand_data) == Seq::<char>::empty());
        assert(text =~= spec_header(role, c.is_arbiter, c.is_revocable) + spec_contract_open(
            role,
            c.name,
            c.is_arbiter,
        ) + spec_using_directive(c.is_arbiter) + spec_data_struct(role, c.obligation_data)
            + spec_constructor_text(role, c.obligation_data, c.is_revocable) + spec_issue_fn(
            role,
            c.is_revocable,
        ) + spec_finalize_all(role, c.finalization_terms) + "}"@);
    } else {
        let prefix = spec_header(role, c.is_arbiter, c.is_revocable) + spec_contract_open(
            role,
            c.name,
            c.is_arbiter,
        ) + spec_using_directive(c.is_arbiter) + spec_data_struct(role, c.obligation_data);
        let block = spec_demand_struct(c.demand_data);
        let suffix = spec_constructor_text(role, c.obligation_data, c.is_revocable)
            + spec_issue_fn(role, c.is_revocable) + spec_finalize_all(
            role,
            c.finalization_terms,
        ) + "}"@;
        assert(text =~= prefix + block + suffix);
        lemma_piece_at(prefix, block, suffix);
    }
}

/// Law: the finalization area of the output is exactly one function block
/// per finalization term, with numeric suffixes ascending from zero with
/// no gaps; zero terms leave no finalization function at all.
pub proof fn lemma_finalization_count(role: RoleNoun, n: nat)
    ensures
        spec_finalize_all(role, n) == Seq::new(n, |i: int| spec_finalize_fn(role, i as nat))
            .flatten(),
        n == 0 ==> spec_finalize_all(role, n) == Seq::<char>::empty(),
    decreases n,
{
    let blocks = Seq::new(n, |i: int| spec_finalize_fn(role, i as nat));
    if n == 0 {
        assert(blocks.len() == 0);
        assert(blocks.flatten() == Seq::<char>::empty());
    } else {
        lemma_finalization_count(role, (n - 1) as nat);
        let prev = Seq::new((n - 1) as nat, |i: int| spec_finalize_fn(role, i as nat));
        assert(blocks =~= prev.push(spec_finalize_fn(role, (n - 1) as nat)));
        prev.lemma_flatten_push(spec_finalize_fn(role, (n - 1) as nat));
        assert(spec_finalize_all(role, n) =~= blocks.flatten());
    }
}

/// Generates the obligation-flavoured contract scaffold for one
/// configuration.  Identical configurations always yield identical output:
/// the result is a function of the configuration's value alone.
pub fn gen_obligation(opts: GenObligationOpts) -> (out: String)
    ensures
        out@ == spec_contract_text(RoleNoun::Obligation, opts@),
{
    gen_contract(RoleNoun::Obligation, opts)
}

} // verus!
