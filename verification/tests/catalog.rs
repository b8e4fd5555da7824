//! The packet-kind catalog and the email-triage contracts.

use std::cell::RefCell;

use bos_work_queue::contracts::email_triage::{
    EmailTriageCondition, EmailTriageField, EmailTriageOperator, EmailTriageRule,
    EmailTriageRuleValidationError,
};
use bos_work_queue::work_queue::{
    packet_kind_catalog, packet_kind_catalog_for_enabled, packet_kind_exists, packet_kind_slice,
};

#[test]
fn every_catalog_kind_has_a_slice_owner() {
    for kind in packet_kind_catalog(None) {
        assert!(
            packet_kind_slice(&kind.kind_id).is_some(),
            "catalog kind {} has no slice owner",
            kind.kind_id
        );
    }
}

#[test]
fn catalog_is_gated_by_enabled_slices() {
    // Only the email_drafts slice enabled: the picker offers exactly its kind.
    let only_email = packet_kind_catalog_for_enabled(None, |slice| slice == "email_drafts");
    assert_eq!(only_email.len(), 1);
    assert_eq!(only_email[0].kind_id, "email_draft_reply");

    // invoice_drafts disabled (Demo's case): invoice_draft is not offered.
    let no_invoicing = packet_kind_catalog_for_enabled(None, |slice| slice != "invoice_drafts");
    assert!(no_invoicing.iter().all(|k| k.kind_id != "invoice_draft"));
}

#[test]
fn packet_kind_catalog_route_respects_enabled_slices() {
    let enabled = ["work_queue", "email_drafts"];
    let kinds: Vec<String> = packet_kind_catalog_for_enabled(None, |slice| enabled.contains(&slice))
        .into_iter()
        .map(|kind| kind.kind_id)
        .collect();
    assert_eq!(kinds, vec!["email_draft_reply".to_string()]);
}

#[test]
fn catalog_keeps_its_order() {
    let all: Vec<String> = packet_kind_catalog_for_enabled(None, |_| true)
        .into_iter()
        .map(|kind| kind.kind_id)
        .collect();
    let catalog: Vec<String> =
        packet_kind_catalog(None).into_iter().map(|kind| kind.kind_id).collect();
    assert_eq!(all, catalog);
    assert_eq!(catalog.len(), 10);
    assert!(packet_kind_catalog_for_enabled(None, |_| false).is_empty());
}

#[test]
fn only_owners_of_kinds_are_asked() {
    let asked: RefCell<Vec<String>> = RefCell::new(Vec::new());
    packet_kind_catalog_for_enabled(None, |slice| {
        asked.borrow_mut().push(slice.to_string());
        true
    });
    let owners: Vec<String> = packet_kind_catalog(None)
        .iter()
        .map(|kind| packet_kind_slice(&kind.kind_id).expect("owner").to_string())
        .collect();
    assert_eq!(asked.into_inner(), owners);
}

#[test]
fn only_catalog_kinds_exist() {
    assert!(packet_kind_exists("claim_draft"));
    assert!(!packet_kind_exists("Claim_draft"));
    assert!(!packet_kind_exists(""));
    assert_eq!(packet_kind_slice("claim_draft"), Some("claim_drafts"));
    assert_eq!(packet_kind_slice("made_up_kind"), None);
}

#[test]
fn validation_rejects_blank_rule_id_and_empty_conditions() {
    let blank = EmailTriageRule::default();
    assert_eq!(
        blank.validate(),
        Err(EmailTriageRuleValidationError::BlankRuleId)
    );
    let no_conditions = EmailTriageRule {
        rule_id: "r1".into(),
        ..Default::default()
    };
    assert_eq!(
        no_conditions.validate(),
        Err(EmailTriageRuleValidationError::EmptyConditions)
    );
}

#[test]
fn header_field_requires_header_name_and_others_forbid_it() {
    let header_missing = EmailTriageCondition {
        field: EmailTriageField::Header,
        op: EmailTriageOperator::Contains,
        value: "x".into(),
        header_name: None,
    };
    let rule = EmailTriageRule {
        rule_id: "r1".into(),
        conditions: vec![header_missing],
        ..Default::default()
    };
    assert_eq!(
        rule.validate(),
        Err(EmailTriageRuleValidationError::HeaderNameRequired)
    );

    let subject_with_header = EmailTriageCondition {
        field: EmailTriageField::Subject,
        op: EmailTriageOperator::Contains,
        value: "x".into(),
        header_name: Some("X-Custom".into()),
    };
    let rule = EmailTriageRule {
        rule_id: "r2".into(),
        conditions: vec![subject_with_header],
        ..Default::default()
    };
    assert_eq!(
        rule.validate(),
        Err(EmailTriageRuleValidationError::HeaderNameNotAllowed)
    );
}
