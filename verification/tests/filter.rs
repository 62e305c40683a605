use chrono::{NaiveDate, NaiveDateTime};
use rust_sdc_clients::vmapi::{Brand, Criterion, CriterionValue, ListVmInput, State};
use serde_json::Value;
use uuid::Uuid;

const ALL_CRITERIA: [(Criterion, &str); 15] = [
    (Criterion::Alias, "alias"),
    (Criterion::BillingId, "billing_id"),
    (Criterion::Brand, "brand"),
    (Criterion::CreateTimestamp, "create_timestamp"),
    (Criterion::Docker, "docker"),
    (Criterion::Fields, "fields"),
    (Criterion::ImageUuid, "image_uuid"),
    (Criterion::InternalMetadata, "internal_metadata"),
    (Criterion::OwnerUuid, "owner_uuid"),
    (Criterion::Uuid, "uuid"),
    (Criterion::Ram, "ram"),
    (Criterion::ServerUuid, "server_uuid"),
    (Criterion::State, "state"),
    (Criterion::TagKey, "tag_key"),
    (Criterion::Uuids, "uuids"),
];

fn noon() -> NaiveDateTime {
    NaiveDate::from_ymd_opt(2020, 4, 7).unwrap().and_hms_opt(12, 0, 0).unwrap()
}

fn text(s: &str) -> CriterionValue {
    CriterionValue::Text(s.to_string())
}

#[test]
fn new_filter_selects_by_nothing() {
    let filter = ListVmInput::new().build();
    for (criterion, _) in ALL_CRITERIA {
        assert_eq!(filter.get(criterion), None);
    }
    assert!(filter.criteria().is_empty());
    assert_eq!(filter, ListVmInput::new());
}

#[test]
fn criteria_go_under_the_provider_keys() {
    for (criterion, key) in ALL_CRITERIA {
        assert_eq!(criterion.as_str(), key);
    }
}

#[test]
fn alias_setter_sets_the_alias_only() {
    let filter = ListVmInput::new().alias("cloudapi").build();
    assert_eq!(filter.get(Criterion::Alias), Some(text("cloudapi")));
    for (criterion, _) in ALL_CRITERIA {
        if criterion != Criterion::Alias {
            assert_eq!(filter.get(criterion), None);
        }
    }
    assert_eq!(filter.criteria(), vec![(Criterion::Alias, text("cloudapi"))]);
}

#[test]
fn each_setter_sets_its_own_criterion() {
    let id = |n: u128| Some(Uuid::from_u128(n));
    let doc = Value::String(String::from("x"));
    let filter = ListVmInput::new()
        .alias("web")
        .billing_id(id(1))
        .brand(Some(Brand::JoyentMinimal))
        .create_timestamp(Some(noon()))
        .docker(Some(false))
        .fields(Some(String::from("uuid,alias")))
        .image_uuid(id(2))
        .internal_metadata(Some(doc.clone()))
        .owner_uuid(id(3))
        .uuid(id(4))
        .ram(Some(2048))
        .server_uuid(id(5))
        .state(Some(State::ShuttingDown))
        .tag_key(Some(String::from("role")))
        .uuids(Some(String::from("a,b")))
        .build();
    let expected = vec![
        (Criterion::Alias, text("web")),
        (Criterion::BillingId, CriterionValue::Id(Uuid::from_u128(1))),
        (Criterion::Brand, CriterionValue::Brand(Brand::JoyentMinimal)),
        (Criterion::CreateTimestamp, CriterionValue::Timestamp(noon())),
        (Criterion::Docker, CriterionValue::Flag(false)),
        (Criterion::Fields, text("uuid,alias")),
        (Criterion::ImageUuid, CriterionValue::Id(Uuid::from_u128(2))),
        (Criterion::InternalMetadata, CriterionValue::Document(doc)),
        (Criterion::OwnerUuid, CriterionValue::Id(Uuid::from_u128(3))),
        (Criterion::Uuid, CriterionValue::Id(Uuid::from_u128(4))),
        (Criterion::Ram, CriterionValue::Number(2048)),
        (Criterion::ServerUuid, CriterionValue::Id(Uuid::from_u128(5))),
        (Criterion::State, CriterionValue::State(State::ShuttingDown)),
        (Criterion::TagKey, text("role")),
        (Criterion::Uuids, text("a,b")),
    ];
    assert_eq!(filter.criteria(), expected);
    for (criterion, value) in expected {
        assert_eq!(filter.get(criterion), Some(value));
    }
}

#[test]
fn unset_criteria_are_left_out_of_the_query() {
    let filter = ListVmInput::new()
        .docker(Some(true))
        .ram(Some(512))
        .state(Some(State::Running))
        .build();
    assert_eq!(
        filter.criteria(),
        vec![
            (Criterion::Docker, CriterionValue::Flag(true)),
            (Criterion::Ram, CriterionValue::Number(512)),
            (Criterion::State, CriterionValue::State(State::Running)),
        ]
    );
}

#[test]
fn setting_none_unsets_a_criterion() {
    let filter = ListVmInput::new().docker(Some(true)).brand(Some(Brand::KVM));
    let filter = filter.docker(None).build();
    assert_eq!(filter.get(Criterion::Docker), None);
    assert_eq!(filter.criteria(), vec![(Criterion::Brand, CriterionValue::Brand(Brand::KVM))]);
}

#[test]
fn later_setting_replaces_the_earlier_one() {
    let filter = ListVmInput::new().alias("a").alias("b").ram(Some(1)).ram(Some(2)).build();
    assert_eq!(filter.get(Criterion::Alias), Some(text("b")));
    assert_eq!(filter.get(Criterion::Ram), Some(CriterionValue::Number(2)));
    assert_eq!(filter.criteria().len(), 2);
}

#[test]
fn filters_built_from_one_base_do_not_see_each_other() {
    let base = ListVmInput::new().brand(Some(Brand::LX));
    let by_alias = base.clone().alias("cloudapi").build();
    let by_docker = base.clone().docker(Some(true)).build();
    assert_eq!(by_alias.get(Criterion::Alias), Some(text("cloudapi")));
    assert_eq!(by_alias.get(Criterion::Docker), None);
    assert_eq!(by_docker.get(Criterion::Docker), Some(CriterionValue::Flag(true)));
    assert_eq!(by_docker.get(Criterion::Alias), None);
    assert_eq!(by_alias.get(Criterion::Brand), Some(CriterionValue::Brand(Brand::LX)));
    assert_eq!(by_docker.get(Criterion::Brand), Some(CriterionValue::Brand(Brand::LX)));
    assert_eq!(base.criteria(), vec![(Criterion::Brand, CriterionValue::Brand(Brand::LX))]);
}

#[test]
fn every_pair_of_single_criteria_is_independent() {
    let set = |base: ListVmInput, criterion: Criterion| -> ListVmInput {
        let id = Some(Uuid::from_u128(9));
        match criterion {
            Criterion::Alias => base.alias("x"),
            Criterion::BillingId => base.billing_id(id),
            Criterion::Brand => base.brand(Some(Brand::KVM)),
            Criterion::CreateTimestamp => base.create_timestamp(Some(noon())),
            Criterion::Docker => base.docker(Some(true)),
            Criterion::Fields => base.fields(Some(String::from("f"))),
            Criterion::ImageUuid => base.image_uuid(id),
            Criterion::InternalMetadata => base.internal_metadata(Some(Value::Null)),
            Criterion::OwnerUuid => base.owner_uuid(id),
            Criterion::Uuid => base.uuid(id),
            Criterion::Ram => base.ram(Some(64)),
            Criterion::ServerUuid => base.server_uuid(id),
            Criterion::State => base.state(Some(State::Failed)),
            Criterion::TagKey => base.tag_key(Some(String::from("t"))),
            Criterion::Uuids => base.uuids(Some(String::from("u"))),
        }
    };
    for (one, _) in ALL_CRITERIA {
        for (other, _) in ALL_CRITERIA {
            if one == other {
                continue;
            }
            let base = ListVmInput::new();
            let first = set(base.clone(), one).build();
            let second = set(base.clone(), other).build();
            assert!(first.get(one).is_some());
            assert_eq!(first.get(other), None);
            assert!(second.get(other).is_some());
            assert_eq!(second.get(one), None);
            assert_eq!(first.criteria().len(), 1);
            assert_eq!(second.criteria().len(), 1);
        }
    }
}

#[test]
fn build_hands_the_filter_on_unchanged() {
    let builder = ListVmInput::new().alias("a").ram(Some(3));
    let copy = builder.clone();
    assert_eq!(builder.build(), copy);
}

#[test]
fn brand_and_state_values_go_by_the_provider_vocabulary() {
    let filter = ListVmInput::new()
        .brand(Some(Brand::JoyentMinimal))
        .state(Some(State::ShuttingDown))
        .build();
    match filter.get(Criterion::Brand) {
        Some(CriterionValue::Brand(b)) => assert_eq!(b.as_str(), "joyent-minimal"),
        other => panic!("{:?}", other),
    }
    match filter.get(Criterion::State) {
        Some(CriterionValue::State(s)) => assert_eq!(s.as_str(), "shutting_down"),
        other => panic!("{:?}", other),
    }
}

#[test]
fn criterion_value_clone_is_the_same_value() {
    let values = vec![
        text("a"),
        CriterionValue::Id(Uuid::from_u128(1)),
        CriterionValue::Brand(Brand::LX),
        CriterionValue::Timestamp(noon()),
        CriterionValue::Flag(true),
        CriterionValue::Number(-1),
        CriterionValue::Document(Value::Bool(true)),
        CriterionValue::State(State::Off),
    ];
    for v in values {
        assert_eq!(v.clone(), v);
    }
}
