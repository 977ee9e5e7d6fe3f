use task_governance::decision_state::{DecisionStateOption, ACCEPTED_UUID, PROPOSED_UUID};
use task_governance::property_rules::{
    extract_option_ids_from_property_value, is_property_applicable_to,
    is_property_applicable_to_subject, is_property_required_for_subject, retain_caller_visible_tags,
    tag_visible_to, validate_decision_decided_by, validate_decision_source_links,
    validate_decision_state, DefinedProperty, DocumentSubType, PropertyOwner, SystemPropertyKeys,
    MAX_DECISION_SOURCE_LINKS,
};
use task_governance::access::EntityAccessAuth;
use task_governance::property_value::{EntityReference, EntityType, PropertyValue, SetPropertyValue};
use uuid::Uuid;

/// Distinct ids standing for the catalogue's system property keys.
fn keys() -> SystemPropertyKeys {
    SystemPropertyKeys {
        parent_task: 0x101,
        subtasks: 0x102,
        depends_on: 0x103,
        stage: 0x104,
        company_owner: 0x105,
        revenue: 0x106,
        decision_state: 0x107,
        decided_by: 0x108,
        decided_at: 0x109,
        decision_sources: 0x10a,
    }
}

#[test]
fn uuid_roundtrip_and_wire_names_are_stable() {
    for (option, wire_name) in [
        (DecisionStateOption::Proposed, "Proposed"),
        (DecisionStateOption::Accepted, "Accepted"),
        (DecisionStateOption::Rejected, "Rejected"),
        (DecisionStateOption::Superseded, "Superseded"),
    ] {
        assert_eq!(DecisionStateOption::from_uuid(option.uuid()), Some(option));
        assert_eq!(option.display_value(), wire_name);
        assert_eq!(DecisionStateOption::try_from(wire_name), Ok(option));
    }
}

#[test]
fn decision_state_names_and_ids_are_closed() {
    assert_eq!(DecisionStateOption::try_from("accepted"), Ok(DecisionStateOption::Accepted));
    assert_eq!(
        DecisionStateOption::try_from("Pending"),
        Err("unknown decision state option: Pending".to_owned())
    );
    assert_eq!(DecisionStateOption::from_uuid(0x42), None);
    assert_eq!(PROPOSED_UUID, 0x00000001_0000_0000_0015_000000000001);
    assert_eq!(DecisionStateOption::Accepted.uuid(), ACCEPTED_UUID);
}

#[test]
fn decision_properties_require_the_decision_subtype() {
    let keys = keys();
    for property_id in [keys.decision_state, keys.decided_by, keys.decided_at, keys.decision_sources] {
        assert!(!is_property_applicable_to_subject(&keys, property_id, EntityType::Document, None));
        assert!(!is_property_applicable_to_subject(
            &keys,
            property_id,
            EntityType::Task,
            Some(DocumentSubType::Task),
        ));
        assert!(is_property_applicable_to_subject(
            &keys,
            property_id,
            EntityType::Document,
            Some(DocumentSubType::Decision),
        ));
        assert!(is_property_required_for_subject(
            &keys,
            property_id,
            EntityType::Document,
            Some(DocumentSubType::Decision),
            false,
        ));
    }
}

#[test]
fn decision_source_links_reject_unsafe_and_unbounded_values() {
    let keys = keys();
    for url in ["javascript:alert(1)", "file:///etc/passwd", "https://"] {
        assert!(validate_decision_source_links(
            &keys,
            keys.decision_sources,
            &Some(SetPropertyValue::MultiLink { urls: vec![url.to_string()] }),
        )
        .is_err());
    }
    assert!(validate_decision_source_links(
        &keys,
        keys.decision_sources,
        &Some(SetPropertyValue::MultiLink { urls: vec!["https://example.test/source".to_string()] }),
    )
    .is_ok());
    assert!(validate_decision_source_links(
        &keys,
        keys.decision_sources,
        &Some(SetPropertyValue::MultiLink {
            urls: (0..=MAX_DECISION_SOURCE_LINKS)
                .map(|i| format!("https://example.test/{i}"))
                .collect(),
        }),
    )
    .is_err());
}

#[test]
fn decided_by_rejects_non_user_references() {
    let keys = keys();
    assert!(validate_decision_decided_by(
        &keys,
        keys.decided_by,
        &Some(SetPropertyValue::EntityReference {
            reference: EntityReference {
                entity_type: EntityType::Project,
                entity_id: "project-1".to_string(),
                specific_message_id: None,
            },
        }),
        false,
    )
    .is_err());

    // Neither id is a well-formed Macro user id.
    for entity_id in ["", "not-a-macro-user"] {
        assert!(validate_decision_decided_by(
            &keys,
            keys.decided_by,
            &Some(SetPropertyValue::EntityReference {
                reference: EntityReference {
                    entity_type: EntityType::User,
                    entity_id: entity_id.to_string(),
                    specific_message_id: None,
                },
            }),
            false,
        )
        .is_err());
    }
}

#[test]
fn decision_state_is_non_null_and_uses_the_fixed_vocabulary() {
    let keys = keys();
    assert!(validate_decision_state(&keys, keys.decision_state, &None).is_err());
    assert!(validate_decision_state(
        &keys,
        keys.decision_state,
        &Some(SetPropertyValue::SelectOption { option_id: Uuid::new_v4().as_u128() }),
    )
    .is_err());
    assert!(validate_decision_state(
        &keys,
        keys.decision_state,
        &Some(SetPropertyValue::SelectOption { option_id: DecisionStateOption::Accepted.uuid() }),
    )
    .is_ok());
}

#[test]
fn decision_validation_messages_are_exact() {
    let keys = keys();
    let links = |urls: Vec<&str>| {
        validate_decision_source_links(
            &keys,
            keys.decision_sources,
            &Some(SetPropertyValue::MultiLink { urls: urls.into_iter().map(str::to_owned).collect() }),
        )
    };
    assert_eq!(
        links(vec![""]),
        Err("Decision Source Links URLs must be between 1 and 2048 bytes")
    );
    let long = format!("https://example.test/{}", "a".repeat(2048));
    assert_eq!(
        links(vec![long.as_str()]),
        Err("Decision Source Links URLs must be between 1 and 2048 bytes")
    );
    assert_eq!(
        links(vec!["not a url"]),
        Err("Decision Source Links must contain valid HTTP(S) URLs")
    );
    assert_eq!(
        links(vec!["mailto:someone@example.test"]),
        Err("Decision Source Links must contain valid HTTP(S) URLs")
    );
    assert_eq!(links(vec!["http://example.test", "HTTPS://Example.test/a"]), Ok(()));
    let too_many: Vec<String> = (0..21).map(|i| format!("https://example.test/{i}")).collect();
    assert_eq!(
        validate_decision_source_links(
            &keys,
            keys.decision_sources,
            &Some(SetPropertyValue::MultiLink { urls: too_many }),
        ),
        Err("Decision Source Links supports at most 20 URLs")
    );
    // Other properties and other values are not checked here.
    assert_eq!(
        validate_decision_source_links(
            &keys,
            keys.decided_at,
            &Some(SetPropertyValue::MultiLink { urls: vec!["javascript:x".to_owned()] }),
        ),
        Ok(())
    );
    assert_eq!(validate_decision_source_links(&keys, keys.decision_sources, &None), Ok(()));

    let user_ref = |message: Option<u128>| {
        Some(SetPropertyValue::EntityReference {
            reference: EntityReference {
                entity_type: EntityType::User,
                entity_id: "macro|user@example.com".to_owned(),
                specific_message_id: message,
            },
        })
    };
    assert_eq!(validate_decision_decided_by(&keys, keys.decided_by, &user_ref(None), true), Ok(()));
    assert_eq!(
        validate_decision_decided_by(&keys, keys.decided_by, &user_ref(Some(3)), true),
        Err("Decision Decided By must contain a valid Macro user ID")
    );
    assert_eq!(
        validate_decision_state(&keys, keys.decision_state, &None),
        Err("Decision State must be one of Proposed, Accepted, Rejected, or Superseded")
    );
    assert_eq!(validate_decision_state(&keys, keys.stage, &None), Ok(()));
}

#[test]
fn property_applicability_follows_entity_types() {
    let keys = keys();
    for task_only in [keys.parent_task, keys.subtasks, keys.depends_on] {
        assert!(is_property_applicable_to(&keys, task_only, EntityType::Task));
        assert!(!is_property_applicable_to(&keys, task_only, EntityType::Document));
    }
    for company_only in [keys.stage, keys.company_owner, keys.revenue] {
        assert!(is_property_applicable_to(&keys, company_only, EntityType::Company));
        assert!(!is_property_applicable_to(&keys, company_only, EntityType::Task));
    }
    assert!(!is_property_applicable_to(&keys, keys.decision_state, EntityType::Document));
    assert!(is_property_applicable_to(&keys, 0x999, EntityType::Chat));
    assert!(is_property_required_for_subject(&keys, 0x999, EntityType::Task, None, true));
    assert!(!is_property_required_for_subject(&keys, keys.decided_by, EntityType::Document, None, true));
}

#[test]
fn personal_tags_are_visible_only_to_their_owner() {
    let owner = PropertyOwner::User { user_id: "macro|a@example.com".to_owned() };
    assert!(tag_visible_to(&owner, &EntityAccessAuth::Authenticated("macro|a@example.com".to_owned())));
    assert!(!tag_visible_to(&owner, &EntityAccessAuth::Authenticated("macro|b@example.com".to_owned())));
    assert!(!tag_visible_to(&owner, &EntityAccessAuth::Bot("bot".to_owned())));
    assert!(!tag_visible_to(&owner, &EntityAccessAuth::Unauthenticated));
    assert!(tag_visible_to(&owner, &EntityAccessAuth::Internal));
    assert!(tag_visible_to(&PropertyOwner::Team, &EntityAccessAuth::Unauthenticated));
    assert!(tag_visible_to(&PropertyOwner::System, &EntityAccessAuth::Unauthenticated));

    let properties = vec![
        DefinedProperty { is_tag: true, owner: PropertyOwner::User { user_id: "macro|b@example.com".to_owned() }, property: 1 },
        DefinedProperty { is_tag: false, owner: PropertyOwner::User { user_id: "macro|b@example.com".to_owned() }, property: 2 },
        DefinedProperty { is_tag: true, owner: PropertyOwner::Team, property: 3 },
        DefinedProperty { is_tag: true, owner: PropertyOwner::User { user_id: "macro|a@example.com".to_owned() }, property: 4 },
    ];
    let kept = retain_caller_visible_tags(
        properties,
        &EntityAccessAuth::Authenticated("macro|a@example.com".to_owned()),
    );
    assert_eq!(kept.iter().map(|p| p.property).collect::<Vec<_>>(), vec![2, 3, 4]);
}

#[test]
fn option_ids_come_only_from_select_values() {
    assert_eq!(
        extract_option_ids_from_property_value(&Some(PropertyValue::SelectOption(vec![5, 6]))),
        vec![5, 6]
    );
    assert!(extract_option_ids_from_property_value(&Some(PropertyValue::Other)).is_empty());
    assert!(extract_option_ids_from_property_value(&None).is_empty());
}
