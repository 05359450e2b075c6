use alkahest_codegen::gen_contract;
use alkahest_codegen::gen_obligation;
use alkahest_codegen::GenObligationOpts;
use alkahest_codegen::RoleNoun;

fn opts(
    name: &str,
    is_arbiter: bool,
    is_revocable: bool,
    finalization_terms: usize,
    obligation_data: &str,
    demand_data: &str,
) -> GenObligationOpts {
    GenObligationOpts {
        name: name.to_string(),
        is_arbiter,
        is_revocable,
        finalization_terms,
        obligation_data: obligation_data.to_string(),
        demand_data: demand_data.to_string(),
    }
}

fn payment(is_arbiter: bool, is_revocable: bool, finalization_terms: usize) -> GenObligationOpts {
    opts(
        "PaymentObligation",
        is_arbiter,
        is_revocable,
        finalization_terms,
        "address token, uint256 amount",
        "",
    )
}

#[test]
fn payment_obligation_minimal_exact() {
    let out = gen_obligation(payment(false, false, 0));
    let expected = "// SPDX-License-Identifier: UNLICENSED
pragma solidity ^0.8.26;

import {Attestation} from \"@eas/Common.sol\";
import {IEAS, AttestationRequest, AttestationRequestData} from \"@eas/IEAS.sol\";
import {ISchemaRegistry} from \"@eas/ISchemaRegistry.sol\";
import {BaseObligation} from \"../BaseObligation.sol\";

contract PaymentObligation is BaseObligation {
  struct ObligationData {
    address token;
    uint256 amount;
  }

  constructor(IEAS _eas, ISchemaRegistry _schemaRegistry) BaseObligation(_eas, _schemaRegistry, \"address token, uint256 amount\", false) {}

  function makeObligation(ObligationData calldata data, uint64 expirationTime, bytes32 fulfilling) public returns (bytes32) {
    // implement custom obligation logic here
    //...
    return eas.attest(AttestationRequest({
      schema: ATTESTATION_SCHEMA,
      data: AttestationRequestData({
        recipient: msg.sender,
        expirationTime: expirationTime,
        revocable: false,
        refUID: fulfilling,
        data: abi.encode(data),
        value: 0
      })
    }));
  }

}";
    assert_eq!(out, expected);
    assert_eq!(out.matches("struct ").count(), 1);
    assert_eq!(out.matches("function finalize_").count(), 0);
}

#[test]
fn payment_obligation_full_exact() {
    let out = gen_obligation(payment(true, true, 2));
    let expected = "// SPDX-License-Identifier: UNLICENSED
pragma solidity ^0.8.26;

import {Attestation} from \"@eas/Common.sol\";
import {IEAS, AttestationRequest, AttestationRequestData, RevocationRequest, RevocationRequestData} from \"@eas/IEAS.sol\";
import {ISchemaRegistry} from \"@eas/ISchemaRegistry.sol\";
import {BaseObligation} from \"../BaseObligation.sol\";
import {IArbiter} from \"../IArbiter.sol\";
import {ArbiterUtils} from \"../ArbiterUtils.sol\";

contract PaymentObligation is BaseObligation, IArbiter {
  using ArbiterUtils for Attestation;

  struct ObligationData {
    address token;
    uint256 amount;
  }

  constructor(IEAS _eas, ISchemaRegistry _schemaRegistry) BaseObligation(_eas, _schemaRegistry, \"address token, uint256 amount\", true) {}

  function makeObligation(ObligationData calldata data, uint64 expirationTime, bytes32 fulfilling) public returns (bytes32) {
    // implement custom obligation logic here
    //...
    return eas.attest(AttestationRequest({
      schema: ATTESTATION_SCHEMA,
      data: AttestationRequestData({
        recipient: msg.sender,
        expirationTime: expirationTime,
        revocable: true,
        refUID: fulfilling,
        data: abi.encode(data),
        value: 0
      })
    }));
  }

  function finalize_0(bytes32 obligation /*, bytes32 fulfillment, ...*/) public returns (bool) {
    // implement custom finalization term (e.g. cancellation or completion) pre-conditions here
    //...
    eas.revoke(RevocationRequest({
      schema: ATTESTATION_SCHEMA,
      data: RevocationRequestData({
        uid: obligation,
        value: 0
      })
    }));
    // implement custom finalization term (e.g. cancellation or completion) post-conditions here
    //...
    return true;
  }

  function finalize_1(bytes32 obligation /*, bytes32 fulfillment, ...*/) public returns (bool) {
    // implement custom finalization term (e.g. cancellation or completion) pre-conditions here
    //...
    eas.revoke(RevocationRequest({
      schema: ATTESTATION_SCHEMA,
      data: RevocationRequestData({
        uid: obligation,
        value: 0
      })
    }));
    // implement custom finalization term (e.g. cancellation or completion) post-conditions here
    //...
    return true;
  }

}";
    assert_eq!(out, expected);
}

#[test]
fn statement_flavour_exact() {
    let out = gen_contract(
        RoleNoun::Statement,
        opts("Escrow", false, false, 1, "address token", ""),
    );
    let expected = "// SPDX-License-Identifier: UNLICENSED
pragma solidity 0.8.26;

import {Attestation} from \"@eas/Common.sol\";
import {IEAS, AttestationRequest, AttestationRequestData} from \"@eas/IEAS.sol\";
import {ISchemaRegistry} from \"@eas/ISchemaRegistry.sol\";
import {BaseStatement} from \"../BaseStatement.sol\";

contract Escrow is BaseStatement {
  struct StatementData {
    address token;
  }

  constructor(IEAS _eas, ISchemaRegistry _schemaRegistry) BaseStatement(_eas, _schemaRegistry, \"address token\", false) {}

  function makeStatement(StatementData calldata data, uint64 expirationTime, bytes32 fulfilling) public returns (bytes32) {
    // implement custom statement logic here
    //...
    return eas.attest(AttestationRequest({
      schema: ATTESTATION_SCHEMA,
      data: AttestationRequestData({
        recipient: msg.sender,
        expirationTime: expirationTime,
        revocable: false,
        refUID: fulfilling,
        data: abi.encode(data),
        value: 0
      })
    }));
  }

  function finalize_0(bytes32 statement /*, bytes32 fulfillment, ...*/) public returns (bool) {
    // implement custom finalization term (e.g. cancellation or completion) pre-conditions here
    //...
    eas.revoke(RevocationRequest({
      schema: ATTESTATION_SCHEMA,
      data: RevocationRequestData({
        uid: statement,
        value: 0
      })
    }));
    // implement custom finalization term (e.g. cancellation or completion) post-conditions here
    //...
    return true;
  }

}";
    assert_eq!(out, expected);
}

#[test]
fn generation_is_deterministic() {
    let a = gen_obligation(payment(true, true, 3));
    let b = gen_obligation(payment(true, true, 3));
    assert_eq!(a, b);
    let c = gen_contract(RoleNoun::Statement, payment(false, true, 1));
    let d = gen_contract(RoleNoun::Statement, payment(false, true, 1));
    assert_eq!(c, d);
}

#[test]
fn demand_struct_present_iff_nonempty() {
    let without = gen_obligation(payment(false, false, 0));
    assert!(!without.contains("DemandData"));
    let with = gen_obligation(opts(
        "PaymentObligation",
        false,
        false,
        0,
        "address token, uint256 amount",
        "address oracle",
    ));
    assert!(with.contains("  struct DemandData {\n    address oracle;\n  }\n\n"));
    assert_eq!(with.matches("struct ").count(), 2);
}

#[test]
fn using_directive_present_iff_arbiter() {
    let without = gen_obligation(payment(false, true, 0));
    assert!(!without.contains("using ArbiterUtils for Attestation"));
    assert!(!without.contains(", IArbiter"));
    let with = gen_obligation(payment(true, false, 0));
    assert!(with.contains("  using ArbiterUtils for Attestation;\n\n"));
    assert!(with.contains("contract PaymentObligation is BaseObligation, IArbiter {\n"));
}

#[test]
fn revocation_imports_present_iff_revocable() {
    let without = gen_obligation(payment(true, false, 0));
    assert!(!without.contains("RevocationRequest"));
    assert!(without.contains("import {IEAS, AttestationRequest, AttestationRequestData} from \"@eas/IEAS.sol\";\n"));
    let with = gen_obligation(payment(true, true, 0));
    assert!(with.contains(
        "import {IEAS, AttestationRequest, AttestationRequestData, RevocationRequest, RevocationRequestData} from \"@eas/IEAS.sol\";\n"
    ));
    assert!(with.contains("revocable: true,"));
    assert!(without.contains("revocable: false,"));
}

#[test]
fn arbiter_imports_present_iff_arbiter() {
    let without = gen_obligation(payment(false, false, 0));
    assert!(!without.contains("IArbiter"));
    assert!(!without.contains("ArbiterUtils"));
    let with = gen_obligation(payment(true, false, 0));
    assert!(with.contains("import {IArbiter} from \"../IArbiter.sol\";\n"));
    assert!(with.contains("import {ArbiterUtils} from \"../ArbiterUtils.sol\";\n"));
}

#[test]
fn finalization_count_matches_config() {
    let out = gen_obligation(payment(false, true, 3));
    assert_eq!(out.matches("function finalize_").count(), 3);
    assert!(out.contains("function finalize_0(bytes32 obligation"));
    assert!(out.contains("function finalize_1(bytes32 obligation"));
    assert!(out.contains("function finalize_2(bytes32 obligation"));
    assert!(!out.contains("function finalize_3"));
    let first = out.find("function finalize_0").unwrap();
    let second = out.find("function finalize_1").unwrap();
    let third = out.find("function finalize_2").unwrap();
    assert!(first < second && second < third);
}

#[test]
fn finalization_suffixes_reach_two_digits() {
    let out = gen_obligation(payment(false, true, 12));
    assert_eq!(out.matches("function finalize_").count(), 12);
    assert!(out.contains("function finalize_9(bytes32 obligation"));
    assert!(out.contains("function finalize_10(bytes32 obligation"));
    assert!(out.contains("function finalize_11(bytes32 obligation"));
    assert!(!out.contains("function finalize_12"));
}

#[test]
fn zero_finalization_terms_is_well_formed() {
    let out = gen_obligation(payment(true, true, 0));
    assert!(!out.contains("finalize_"));
    assert!(out.contains("function makeObligation"));
    assert!(out.ends_with("  }\n\n}"));
    assert!(!out.ends_with("\n"));
}

#[test]
fn field_list_commas_become_separators() {
    let out = gen_obligation(opts("A", false, false, 0, "uint8 a,uint8 b,uint8 c", ""));
    assert!(out.contains("  struct ObligationData {\n    uint8 a;\n   uint8 b;\n   uint8 c;\n  }\n\n"));
}

#[test]
fn malformed_field_list_propagates_verbatim() {
    let out = gen_obligation(opts("A", false, false, 0, "not a pair", ""));
    assert!(out.contains("  struct ObligationData {\n    not a pair;\n  }\n\n"));
    assert!(out.contains("BaseObligation(_eas, _schemaRegistry, \"not a pair\", false) {}"));
}
