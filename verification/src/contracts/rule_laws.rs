//! When a triage rule is accepted, and what is said of one that is not.

use vstd::prelude::*;

use crate::contracts::email_triage::{
    condition_fault, condition_v2_fault, first_condition_fault, first_condition_v2_fault,
    first_rule_fault, is_category_id, rule_fault, EmailTriageCondition, EmailTriageConditionId,
    EmailTriageConditionOperator, EmailTriageConditionV2, EmailTriageConditionValue,
    EmailTriageField, EmailTriageOperator, EmailTriageRule, EmailTriageRuleValidationError,
};
use crate::text::trimmed;

verus! {

/// The text holds something besides white space.
pub open spec fn says_something(text: Seq<char>) -> bool {
    trimmed(text).len() > 0
}

/// The condition can be evaluated: it has a value to compare with unless it only asks
/// whether there is one, and names a header exactly where it looks at one.
pub open spec fn condition_is_sound(condition: EmailTriageCondition) -> bool {
    &&& condition.op == EmailTriageOperator::Exists || says_something(condition.value@)
    &&& condition.field == EmailTriageField::Header <==> condition.header_name is Some
        && says_something(condition.header_name->Some_0@)
}

/// A condition is accepted where it can be evaluated; else its missing value is
/// reported before its header.
pub proof fn unsound_conditions_are_refused(condition: EmailTriageCondition)
    ensures
        condition_fault(condition) is None <==> condition_is_sound(condition),
        condition.op != EmailTriageOperator::Exists && !says_something(condition.value@)
            ==> condition_fault(condition) == Some(
            EmailTriageRuleValidationError::ConditionValueRequired,
        ),
        condition.op == EmailTriageOperator::Exists && condition.field == EmailTriageField::Header
            && condition.header_name is None ==> condition_fault(condition) == Some(
            EmailTriageRuleValidationError::HeaderNameRequired,
        ),
        condition.op == EmailTriageOperator::Exists && condition.field != EmailTriageField::Header
            && condition.header_name is Some && says_something(condition.header_name->Some_0@)
            ==> condition_fault(condition) == Some(
            EmailTriageRuleValidationError::HeaderNameNotAllowed,
        ),
{
}

/// The value of a catalog condition gives something to compare with.
pub open spec fn value_says_something(value: EmailTriageConditionValue) -> bool {
    match value {
        EmailTriageConditionValue::Text(text) => says_something(text@),
        EmailTriageConditionValue::Date(text) => says_something(text@),
        EmailTriageConditionValue::StringList(values) => exists|i: int|
            0 <= i < values@.len() && says_something(#[trigger] values@[i]@),
        EmailTriageConditionValue::Header { name, value } => says_something(name@)
            && says_something(value@),
        EmailTriageConditionValue::Bool(_) => true,
        EmailTriageConditionValue::Number(_) => true,
        EmailTriageConditionValue::MoneyCents(_) => true,
        EmailTriageConditionValue::Empty => false,
    }
}

/// A catalog condition can be evaluated: it has a value to compare with unless its
/// operator needs none, and a header's condition holds a header.
pub open spec fn catalog_condition_is_sound(condition: EmailTriageConditionV2) -> bool {
    &&& condition.op == EmailTriageConditionOperator::Exists || condition.op
        == EmailTriageConditionOperator::IsTrue || condition.op
        == EmailTriageConditionOperator::IsFalse || value_says_something(condition.value)
    &&& condition.condition_id == EmailTriageConditionId::MessageHeader ==> condition.value is Header
}

/// A catalog condition is accepted where it can be evaluated.
pub proof fn unsound_catalog_conditions_are_refused(condition: EmailTriageConditionV2)
    ensures
        condition_v2_fault(condition) is None <==> catalog_condition_is_sound(condition),
        condition_v2_fault(condition) is Some ==> condition_v2_fault(condition)->Some_0
            == EmailTriageRuleValidationError::ConditionValueRequired || condition_v2_fault(
            condition,
        )->Some_0 == EmailTriageRuleValidationError::HeaderNameRequired,
{
    if let EmailTriageConditionValue::StringList(values) = condition.value {
        if exists|i: int| 0 <= i < values@.len() && says_something(#[trigger] values@[i]@) {
            let i = choose|i: int| 0 <= i < values@.len() && says_something(#[trigger] values@[i]@);
            assert(!crate::text::is_blank(values@[i]@));
        } else {
            assert forall|i: int| 0 <= i < values@.len() implies crate::text::is_blank(
                #[trigger] values@[i]@,
            ) by {
                assert(!says_something(values@[i]@));
            }
        }
    }
}

proof fn condition_faults_are_found(conditions: Seq<EmailTriageCondition>)
    ensures
        first_condition_fault(conditions) is None <==> forall|i: int|
            0 <= i < conditions.len() ==> condition_is_sound(#[trigger] conditions[i]),
        first_condition_fault(conditions) is Some ==> exists|i: int|
            0 <= i < conditions.len() && condition_fault(#[trigger] conditions[i])
                == first_condition_fault(conditions),
    decreases conditions.len(),
{
    if conditions.len() > 0 {
        let rest = conditions.drop_first();
        condition_faults_are_found(rest);
        unsound_conditions_are_refused(conditions[0]);
        if condition_fault(conditions[0]) is None {
            if first_condition_fault(rest) is None {
                assert forall|i: int| 0 <= i < conditions.len() implies condition_is_sound(
                    #[trigger] conditions[i],
                ) by {
                    if i > 0 {
                        assert(rest[i - 1] == conditions[i]);
                    }
                }
            } else {
                let i = choose|i: int|
                    0 <= i < rest.len() && condition_fault(#[trigger] rest[i])
                        == first_condition_fault(rest);
                unsound_conditions_are_refused(rest[i]);
                assert(conditions[i + 1] == rest[i]);
            }
        }
    }
}

proof fn catalog_condition_faults_are_found(conditions: Seq<EmailTriageConditionV2>)
    ensures
        first_condition_v2_fault(conditions) is None <==> forall|i: int|
            0 <= i < conditions.len() ==> catalog_condition_is_sound(#[trigger] conditions[i]),
        first_condition_v2_fault(conditions) is Some ==> exists|i: int|
            0 <= i < conditions.len() && condition_v2_fault(#[trigger] conditions[i])
                == first_condition_v2_fault(conditions),
    decreases conditions.len(),
{
    if conditions.len() > 0 {
        let rest = conditions.drop_first();
        catalog_condition_faults_are_found(rest);
        unsound_catalog_conditions_are_refused(conditions[0]);
        if condition_v2_fault(conditions[0]) is None {
            if first_condition_v2_fault(rest) is None {
                assert forall|i: int| 0 <= i < conditions.len() implies catalog_condition_is_sound(
                    #[trigger] conditions[i],
                ) by {
                    if i > 0 {
                        assert(rest[i - 1] == conditions[i]);
                    }
                }
            } else {
                let i = choose|i: int|
                    0 <= i < rest.len() && condition_v2_fault(#[trigger] rest[i])
                        == first_condition_v2_fault(rest);
                unsound_catalog_conditions_are_refused(rest[i]);
                assert(conditions[i + 1] == rest[i]);
            }
        }
    }
}

/// A rule can be evaluated: it has a name, a condition of either kind, only
/// conditions that can be evaluated, and a category id of one to sixty-four
/// lower-case letters, digits and underscores.
pub open spec fn rule_is_sound(rule: EmailTriageRule) -> bool {
    &&& says_something(rule.rule_id@)
    &&& rule.conditions@.len() + rule.conditions_v2@.len() > 0
    &&& forall|i: int|
        0 <= i < rule.conditions@.len() ==> condition_is_sound(#[trigger] rule.conditions@[i])
    &&& forall|i: int|
        0 <= i < rule.conditions_v2@.len() ==> catalog_condition_is_sound(
            #[trigger] rule.conditions_v2@[i],
        )
    &&& 1 <= rule.pinned_category@.len() <= 64
    &&& forall|i: int|
        0 <= i < rule.pinned_category@.len() ==> {
            let c = #[trigger] rule.pinned_category@[i];
            c == '_' || ('a' <= c && c <= 'z') || ('0' <= c && c <= '9')
        }
}

/// A rule is accepted exactly where it can be evaluated; one without a name, without
/// conditions, or with a category id that is none is told so, in this order and with
/// its conditions' faults before the category's.
pub proof fn unsound_rules_are_refused(rule: EmailTriageRule)
    ensures
        rule_fault(rule) is None <==> rule_is_sound(rule),
        !says_something(rule.rule_id@) ==> rule_fault(rule) == Some(
            EmailTriageRuleValidationError::BlankRuleId,
        ),
        says_something(rule.rule_id@) && rule.conditions@.len() + rule.conditions_v2@.len() == 0
            ==> rule_fault(rule) == Some(EmailTriageRuleValidationError::EmptyConditions),
        ({
            let named = says_something(rule.rule_id@);
            let conditioned = rule.conditions@.len() + rule.conditions_v2@.len() > 0;
            let evaluable = (forall|i: int|
                0 <= i < rule.conditions@.len() ==> condition_is_sound(
                    #[trigger] rule.conditions@[i],
                )) && (forall|i: int|
                0 <= i < rule.conditions_v2@.len() ==> catalog_condition_is_sound(
                    #[trigger] rule.conditions_v2@[i],
                ));
            &&& named && conditioned && evaluable && !rule_is_sound(rule) ==> rule_fault(rule)
                == Some(EmailTriageRuleValidationError::InvalidCategoryId)
            &&& named && conditioned && !evaluable ==> rule_fault(rule) is Some && {
                let fault = rule_fault(rule)->Some_0;
                fault == EmailTriageRuleValidationError::ConditionValueRequired || fault
                    == EmailTriageRuleValidationError::HeaderNameRequired || fault
                    == EmailTriageRuleValidationError::HeaderNameNotAllowed
            }
        }),
{
    condition_faults_are_found(rule.conditions@);
    catalog_condition_faults_are_found(rule.conditions_v2@);
    if first_condition_v2_fault(rule.conditions_v2@) is Some {
        let i = choose|i: int|
            0 <= i < rule.conditions_v2@.len() && condition_v2_fault(
                #[trigger] rule.conditions_v2@[i],
            ) == first_condition_v2_fault(rule.conditions_v2@);
        unsound_catalog_conditions_are_refused(rule.conditions_v2@[i]);
    }
    assert(is_category_id(rule.pinned_category@) <==> (1 <= rule.pinned_category@.len() <= 64
        && forall|i: int|
        0 <= i < rule.pinned_category@.len() ==> {
            let c = #[trigger] rule.pinned_category@[i];
            c == '_' || ('a' <= c && c <= 'z') || ('0' <= c && c <= '9')
        })) by {
        if is_category_id(rule.pinned_category@) {
            assert forall|i: int| 0 <= i < rule.pinned_category@.len() implies ({
                let c = #[trigger] rule.pinned_category@[i];
                c == '_' || ('a' <= c && c <= 'z') || ('0' <= c && c <= '9')
            }) by {
                assert(crate::contracts::email_triage::is_category_char(rule.pinned_category@[i]));
            }
        }
    }
}

/// A set of rules is sound exactly where each of its rules is.
pub proof fn unsound_rule_sets_are_refused(rules: Seq<EmailTriageRule>)
    ensures
        first_rule_fault(rules) is None <==> forall|i: int|
            0 <= i < rules.len() ==> rule_is_sound(#[trigger] rules[i]),
    decreases rules.len(),
{
    if rules.len() > 0 {
        let rest = rules.drop_first();
        unsound_rule_sets_are_refused(rest);
        unsound_rules_are_refused(rules[0]);
        if rule_fault(rules[0]) is None {
            if first_rule_fault(rest) is None {
                assert forall|i: int| 0 <= i < rules.len() implies rule_is_sound(
                    #[trigger] rules[i],
                ) by {
                    if i > 0 {
                        assert(rest[i - 1] == rules[i]);
                    }
                }
            } else {
                let i = choose|i: int|
                    0 <= i < rest.len() && !rule_is_sound(#[trigger] rest[i]);
                assert(rules[i + 1] == rest[i]);
            }
        }
    }
}

} // verus!
