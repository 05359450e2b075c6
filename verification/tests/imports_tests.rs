use alkahest_codegen::gen_imports;
use alkahest_codegen::RoleNoun;
use alkahest_codegen::Symbol;

#[test]
fn empty_request_yields_no_imports() {
    let req: Vec<Symbol> = Vec::new();
    let out = gen_imports(&req, RoleNoun::Obligation);
    assert_eq!(out, "");
}

#[test]
fn single_symbol_yields_single_line() {
    let req = vec![Symbol::Attestation];
    let out = gen_imports(&req, RoleNoun::Obligation);
    assert_eq!(out, "import {Attestation} from \"@eas/Common.sol\";\n");
}

#[test]
fn line_order_follows_table_not_request() {
    let req = vec![Symbol::RevocationRequestData, Symbol::IEas, Symbol::AttestationRequest];
    let out = gen_imports(&req, RoleNoun::Obligation);
    assert_eq!(
        out,
        "import {IEAS, AttestationRequest, RevocationRequestData} from \"@eas/IEAS.sol\";\n"
    );
}

#[test]
fn base_module_substitutes_role_noun() {
    let req = vec![Symbol::BaseContract];
    let obligation = gen_imports(&req, RoleNoun::Obligation);
    assert_eq!(obligation, "import {BaseObligation} from \"../BaseObligation.sol\";\n");
    let statement = gen_imports(&req, RoleNoun::Statement);
    assert_eq!(statement, "import {BaseStatement} from \"../BaseStatement.sol\";\n");
}

#[test]
fn modules_emit_in_fixed_order() {
    let req = vec![
        Symbol::ArbiterUtils,
        Symbol::BaseContract,
        Symbol::Attestation,
        Symbol::IArbiter,
        Symbol::ISchemaRegistry,
    ];
    let out = gen_imports(&req, RoleNoun::Statement);
    let expected = "import {Attestation} from \"@eas/Common.sol\";
import {ISchemaRegistry} from \"@eas/ISchemaRegistry.sol\";
import {BaseStatement} from \"../BaseStatement.sol\";
import {IArbiter} from \"../IArbiter.sol\";
import {ArbiterUtils} from \"../ArbiterUtils.sol\";
";
    assert_eq!(out, expected);
}
