//! The import resolver: a fixed symbol-to-module table, filtered against
//! the set of symbols a generated contract actually uses, emitting one
//! import statement per module that contributes at least one symbol.

use vstd::prelude::*;
use vstd::string::StringExecFns;

use crate::codegen::spec_role_name;
use crate::codegen::role_name;
use crate::codegen::RoleNoun;

verus! {

/// A symbol the generated contract may need to import.
#[derive(Clone, Copy, PartialEq, Eq, Structural, Debug)]
pub enum Symbol {
    Attestation,
    IEas,
    AttestationRequest,
    AttestationRequestData,
    RevocationRequest,
    RevocationRequestData,
    ISchemaRegistry,
    BaseContract,
    IArbiter,
    ArbiterUtils,
}

/// The text a symbol imports under; the base-contract type substitutes the
/// role noun.
pub open spec fn spec_symbol_text(s: Symbol, role: RoleNoun) -> Seq<char> {
    match s {
        Symbol::Attestation => "Attestation"@,
        Symbol::IEas => "IEAS"@,
        Symbol::AttestationRequest => "AttestationRequest"@,
        Symbol::AttestationRequestData => "AttestationRequestData"@,
        Symbol::RevocationRequest => "RevocationRequest"@,
        Symbol::RevocationRequestData => "RevocationRequestData"@,
        Symbol::ISchemaRegistry => "ISchemaRegistry"@,
        Symbol::BaseContract => "Base"@ + spec_role_name(role),
        Symbol::IArbiter => "IArbiter"@,
        Symbol::ArbiterUtils => "ArbiterUtils"@,
    }
}

/// Appends the import text of one symbol to `out`.
fn append_symbol(out: &mut String, s: Symbol, role: RoleNoun)
    ensures
        final(out)@ == old(out)@ + spec_symbol_text(s, role),
{
    match s {
        Symbol::Attestation => out.append("Attestation"),
        Symbol::IEas => out.append("IEAS"),
        Symbol::AttestationRequest => out.append("AttestationRequest"),
        Symbol::AttestationRequestData => out.append("AttestationRequestData"),
        Symbol::RevocationRequest => out.append("RevocationRequest"),
        Symbol::RevocationRequestData => out.append("RevocationRequestData"),
        Symbol::ISchemaRegistry => out.append("ISchemaRegistry"),
        Symbol::BaseContract => {
            out.append("Base");
            out.append(role_name(role));
        },
        Symbol::IArbiter => out.append("IArbiter"),
        Symbol::ArbiterUtils => out.append("ArbiterUtils"),
    }
}

/// The import names of `syms`, joined with `", "`.
pub open spec fn spec_names_joined(syms: Seq<Symbol>, role: RoleNoun) -> Seq<char>
    decreases syms.len(),
{
    if syms.len() == 0 {
        Seq::empty()
    } else if syms.len() == 1 {
        spec_symbol_text(syms[0], role)
    } else {
        spec_names_joined(syms.drop_last(), role) + ", "@ + spec_symbol_text(syms.last(), role)
    }
}

/// The symbols of one module's table entry that the requested set asks
/// for, in the entry's declaration order.
pub open spec fn spec_kept(syms: Seq<Symbol>, req: Seq<Symbol>) -> Seq<Symbol>
    decreases syms.len(),
{
    if syms.len() == 0 {
        Seq::empty()
    } else {
        spec_kept(syms.drop_last(), req) + (if req.contains(syms.last()) {
            seq![syms.last()]
        } else {
            Seq::empty()
        })
    }
}

/// One module's import statement: empty when none of the module's symbols
/// is requested, otherwise a single line listing the requested ones in the
/// module's declaration order.
pub open spec fn spec_import_line(
    syms: Seq<Symbol>,
    req: Seq<Symbol>,
    path: Seq<char>,
    role: RoleNoun,
) -> Seq<char> {
    let kept = spec_kept(syms, req);
    if kept.len() == 0 {
        Seq::empty()
    } else {
        "import {"@ + spec_names_joined(kept, role) + "} from \""@ + path + "\";\n"@
    }
}

/// The symbols the first module of the fixed table serves.
pub open spec fn spec_common_symbols() -> Seq<Symbol> {
    seq![Symbol::Attestation]
}

/// The symbols the attestation-service module serves.
pub open spec fn spec_eas_symbols() -> Seq<Symbol> {
    seq![
        Symbol::IEas,
        Symbol::AttestationRequest,
        Symbol::AttestationRequestData,
        Symbol::RevocationRequest,
        Symbol::RevocationRequestData,
    ]
}

/// The symbols the schema-registry module serves.
pub open spec fn spec_schema_registry_symbols() -> Seq<Symbol> {
    seq![Symbol::ISchemaRegistry]
}

/// The symbols the base-contract module serves.
pub open spec fn spec_base_symbols() -> Seq<Symbol> {
    seq![Symbol::BaseContract]
}

/// The symbols the arbiter-interface module serves.
pub open spec fn spec_arbiter_symbols() -> Seq<Symbol> {
    seq![Symbol::IArbiter]
}

/// The symbols the arbiter-utility module serves.
pub open spec fn spec_arbiter_utils_symbols() -> Seq<Symbol> {
    seq![Symbol::ArbiterUtils]
}

/// The base-contract module's path substitutes the role noun.
pub open spec fn spec_base_path(role: RoleNoun) -> Seq<char> {
    "../Base"@ + spec_role_name(role) + ".sol"@
}

/// The whole import block: the modules' import statements in the table's
/// fixed order, with the modules that contribute no symbol skipped.
pub open spec fn spec_import_block(req: Seq<Symbol>, role: RoleNoun) -> Seq<char> {
    spec_import_line(spec_common_symbols(), req, "@eas/Common.sol"@, role) + spec_import_line(
        spec_eas_symbols(),
        req,
        "@eas/IEAS.sol"@,
        role,
    ) + spec_import_line(spec_schema_registry_symbols(), req, "@eas/ISchemaRegistry.sol"@, role)
        + spec_import_line(spec_base_symbols(), req, spec_base_path(role), role)
        + spec_import_line(spec_arbiter_symbols(), req, "../IArbiter.sol"@, role)
        + spec_import_line(spec_arbiter_utils_symbols(), req, "../ArbiterUtils.sol"@, role)
}

/// Whether the requested set contains a symbol.
fn contains_symbol(req: &Vec<Symbol>, s: Symbol) -> (r: bool)
    ensures
        r == req@.contains(s),
{
    let mut i: usize = 0;
    while i < req.len()
        invariant
            i <= req@.len(),
            forall|j: int| 0 <= j < i ==> req@[j] != s,
        decreases req@.len() - i,
    {
        if req[i] == s {
            return true;
        }
        i += 1;
    }
    false
}

/// Extending a table entry by one symbol keeps that symbol exactly when
/// it is requested.
pub proof fn lemma_kept_push(syms: Seq<Symbol>, s: Symbol, req: Seq<Symbol>)
    ensures
        spec_kept(syms.push(s), req) == spec_kept(syms, req) + (if req.contains(s) {
            seq![s]
        } else {
            Seq::<Symbol>::empty()
        }),
{
    assert(syms.push(s).drop_last() =~= syms);
    assert(syms.push(s).last() == s);
}

/// Law: a table entry keeps no symbol exactly when none of its symbols is
/// requested.
pub proof fn lemma_kept_empty(syms: Seq<Symbol>, req: Seq<Symbol>)
    ensures
        (spec_kept(syms, req).len() == 0) <==> (forall|i: int|
            0 <= i < syms.len() ==> !req.contains(syms[i])),
    decreases syms.len(),
{
    if syms.len() > 0 {
        lemma_kept_empty(syms.drop_last(), req);
        assert(forall|i: int| 0 <= i < syms.len() - 1 ==> syms.drop_last()[i] == syms[i]);
        if req.contains(syms.last()) {
            assert(spec_kept(syms, req).len() > 0);
        }
    }
}

/// Law: a module's import statement is present exactly when the requested
/// set holds at least one of the module's symbols.
pub proof fn lemma_import_line_minimal(
    syms: Seq<Symbol>,
    req: Seq<Symbol>,
    path: Seq<char>,
    role: RoleNoun,
)
    ensures
        (spec_import_line(syms, req, path, role).len() == 0) <==> (forall|i: int|
            0 <= i < syms.len() ==> !req.contains(syms[i])),
{
    lemma_kept_empty(syms, req);
    if spec_kept(syms, req).len() != 0 {
        reveal_strlit("import {");
        assert(spec_import_line(syms, req, path, role).len() > 0);
    }
}

/// Appends one module's import statement to `out`: nothing when no symbol
/// of `syms` is requested, otherwise one line listing the requested ones.
fn append_import_line(
    out: &mut String,
    syms: &Vec<Symbol>,
    req: &Vec<Symbol>,
    path: &str,
    role: RoleNoun,
)
    ensures
        final(out)@ == old(out)@ + spec_import_line(syms@, req@, path@, role),
{
    let mut names = String::new();
    let mut found = false;
    let mut i: usize = 0;
    while i < syms.len()
        invariant
            i <= syms@.len(),
            found == (spec_kept(syms@.take(i as int), req@).len() != 0),
            names@ == spec_names_joined(spec_kept(syms@.take(i as int), req@), role),
        decreases syms@.len() - i,
    {
        let s = syms[i];
        if contains_symbol(req, s) {
            if found {
                names.append(", ");
            }
            append_symbol(&mut names, s, role);
            found = true;
        }
        i += 1;
        proof {
            let t = syms@.take(i as int);
            assert(t.drop_last() =~= syms@.take(i - 1));
            assert(t.last() == syms@[i - 1]);
            let kprev = spec_kept(syms@.take(i - 1), req@);
            let know = spec_kept(t, req@);
            if req@.contains(syms@[i - 1]) {
                assert(know =~= kprev.push(syms@[i - 1]));
                assert(know.drop_last() =~= kprev);
                if kprev.len() == 0 {
                    assert(names@ =~= spec_names_joined(know, role));
                } else {
                    assert(names@ =~= spec_names_joined(know, role));
                }
            } else {
                assert(know =~= kprev);
            }
        }
    }
    proof {
        assert(syms@.take(syms@.len() as int) =~= syms@);
    }
    if found {
        out.append("import {");
        out.append(names.as_str());
        out.append("} from \"");
        out.append(path);
        out.append("\";\n");
        proof {
            assert(out@ =~= old(out)@ + spec_import_line(syms@, req@, path@, role));
        }
    } else {
        proof {
            assert(out@ =~= old(out)@ + spec_import_line(syms@, req@, path@, role));
        }
    }
}

/// Builds the import block for the requested symbol set: one import
/// statement per module of the fixed table that has at least one requested
/// symbol, in the table's fixed order, each statement listing only the
/// requested symbols of its module in the table's declaration order.
pub fn gen_imports(requested: &Vec<Symbol>, role: RoleNoun) -> (out: String)
    ensures
        out@ == spec_import_block(requested@, role),
{
    let mut out = String::new();

    let mut syms: Vec<Symbol> = Vec::new();
    syms.push(Symbol::Attestation);
    proof {
        assert(syms@ =~= spec_common_symbols());
    }
    append_import_line(&mut out, &syms, requested, "@eas/Common.sol", role);

    let mut syms: Vec<Symbol> = Vec::new();
    syms.push(Symbol::IEas);
    syms.push(Symbol::AttestationRequest);
    syms.push(Symbol::AttestationRequestData);
    syms.push(Symbol::RevocationRequest);
    syms.push(Symbol::RevocationRequestData);
    proof {
        assert(syms@ =~= spec_eas_symbols());
    }
    append_import_line(&mut out, &syms, requested, "@eas/IEAS.sol", role);

    let mut syms: Vec<Symbol> = Vec::new();
    syms.push(Symbol::ISchemaRegistry);
    proof {
        assert(syms@ =~= spec_schema_registry_symbols());
    }
    append_import_line(&mut out, &syms, requested, "@eas/ISchemaRegistry.sol", role);

    let mut syms: Vec<Symbol> = Vec::new();
    syms.push(Symbol::BaseContract);
    proof {
        assert(syms@ =~= spec_base_symbols());
    }
    let base_path = String::from_str("../Base").concat(role_name(role)).concat(".sol");
    proof {
        assert(base_path@ =~= spec_base_path(role));
    }
    append_import_line(&mut out, &syms, requested, base_path.as_str(), role);

    let mut syms: Vec<Symbol> = Vec::new();
    syms.push(Symbol::IArbiter);
    proof {
        assert(syms@ =~= spec_arbiter_symbols());
    }
    append_import_line(&mut out, &syms, requested, "../IArbiter.sol", role);

    let mut syms: Vec<Symbol> = Vec::new();
    syms.push(Symbol::ArbiterUtils);
    proof {
        assert(syms@ =~= spec_arbiter_utils_symbols());
    }
    append_import_line(&mut out, &syms, requested, "../ArbiterUtils.sol", role);

    proof {
        assert(out@ =~= spec_import_block(requested@, role));
    }
    out
}

} // verus!
