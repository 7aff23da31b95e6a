use real_estate::contract::{execute, instantiate, query, query_property, try_increment};
use real_estate::error::ContractError;
use real_estate::msg::{ExecEvent, ExecuteMsg, InstantiateMsg, QueryMsg};
use real_estate::state::{Property, PropertyRegion, PropertyType};

fn sample_property() -> Property {
    Property {
        property_type: PropertyType::OneRoom,
        region: PropertyRegion::Varna,
        squaring: "90kv".to_string(),
        construction: "Tuhla".to_string(),
        floor: "5".to_string(),
        description: None,
    }
}

#[test]
fn proper_initialization() {
    let msg = InstantiateMsg { count: 0 };
    let store = instantiate("creator".to_string(), &msg);
    assert_eq!(0, store.brokers.len());
    assert_eq!(0, store.state.count);

    let res = query(&store, QueryMsg::GetOffer { id: 1 });
    match res {
        Ok(_) => panic!("Should not found any offers"),
        Err(_) => {}
    }
}

#[test]
fn only_admins_can_make_brokers() {
    let msg = InstantiateMsg { count: 0 };
    let mut store = instantiate("admin".to_string(), &msg);

    let make_broker_msg = ExecuteMsg::MakeBroker {
        address: "broker_candidate".to_string(),
    };
    let err_result = execute(
        &mut store,
        &"non_admin".to_string(),
        make_broker_msg.clone(),
        true,
    );

    match err_result {
        Ok(_) => panic!("Should throw err 'Unauthorized'"),
        Err(_) => {}
    }

    execute(&mut store, &"admin".to_string(), make_broker_msg, true).unwrap();
}

#[test]
fn only_brokers_can_make_offers() {
    let msg = InstantiateMsg { count: 0 };
    let mut store = instantiate("admin".to_string(), &msg);

    let make_broker_msg = ExecuteMsg::MakeBroker {
        address: "broker_candidate".to_string(),
    };
    execute(&mut store, &"admin".to_string(), make_broker_msg, true).unwrap();

    let make_offer_msg = ExecuteMsg::MakeOffer {
        property: sample_property(),
    };
    let err_result = execute(
        &mut store,
        &"non_broker".to_string(),
        make_offer_msg.clone(),
        true,
    );
    match err_result {
        Ok(_) => panic!("Should throw 'NotBroker' error "),
        Err(_) => {}
    }

    execute(&mut store, &"broker_candidate".to_string(), make_offer_msg, true).unwrap();

    // get brokers count and compare
    assert_eq!(1, store.brokers.len());

    // get property with id 1
    let property = store.get_offer(1).unwrap();
    assert_eq!(PropertyType::OneRoom, property.property_type);
    assert_eq!(PropertyRegion::Varna, property.region);
    assert_eq!("90kv".to_string(), property.squaring);
    assert_eq!("Tuhla".to_string(), property.construction);
    assert_eq!("5".to_string(), property.floor);
    assert_eq!(None, property.description);
}

#[test]
fn bootstrap_admin_check() {
    let msg = InstantiateMsg { count: 0 };
    let store = instantiate("alice".to_string(), &msg);
    assert!(store.require_admin(&"alice".to_string()).is_ok());
    assert_eq!(
        Err(ContractError::Unauthorized),
        store.require_admin(&"bob".to_string())
    );
    assert_eq!(
        Err(ContractError::Unauthorized),
        store.require_admin(&"".to_string())
    );
}

#[test]
fn unauthorized_add_leaves_brokers_unchanged() {
    let msg = InstantiateMsg { count: 0 };
    let mut store = instantiate("admin".to_string(), &msg);
    execute(
        &mut store,
        &"admin".to_string(),
        ExecuteMsg::MakeBroker {
            address: "b1".to_string(),
        },
        true,
    )
    .unwrap();
    let before = store.brokers.len();

    let res = execute(
        &mut store,
        &"intruder".to_string(),
        ExecuteMsg::MakeBroker {
            address: "b2".to_string(),
        },
        true,
    );
    assert_eq!(Err(ContractError::Unauthorized), res);
    assert_eq!(before, store.brokers.len());
    assert_eq!(vec!["b1".to_string()], store.brokers);
}

#[test]
fn no_duplicate_brokers() {
    let msg = InstantiateMsg { count: 0 };
    let mut store = instantiate("admin".to_string(), &msg);
    let admin = "admin".to_string();

    let first = store.add_broker(&admin, "xavier".to_string(), true);
    assert_eq!(Ok(()), first);
    let second = store.add_broker(&admin, "xavier".to_string(), true);
    assert_eq!(Err(ContractError::AlreadyBroker), second);

    let occurrences = store
        .brokers
        .iter()
        .filter(|b| b.as_str() == "xavier")
        .count();
    assert_eq!(1, occurrences);
    assert_eq!(1, store.brokers.len());
}

#[test]
fn invalid_identity_is_rejected_before_storage() {
    let msg = InstantiateMsg { count: 0 };
    let mut store = instantiate("admin".to_string(), &msg);
    let res = execute(
        &mut store,
        &"admin".to_string(),
        ExecuteMsg::MakeBroker {
            address: "not an address".to_string(),
        },
        false,
    );
    assert_eq!(Err(ContractError::InvalidIdentity), res);
    assert_eq!(0, store.brokers.len());
}

#[test]
fn broker_gating_keeps_counter() {
    let msg = InstantiateMsg { count: 0 };
    let mut store = instantiate("admin".to_string(), &msg);
    let res = store.create_offer(&"nobody".to_string(), sample_property());
    assert_eq!(Err(ContractError::NotBroker), res);
    assert_eq!(0, store.state.count);
    assert_eq!(0, store.properties.len());
}

#[test]
fn sequential_ids() {
    let msg = InstantiateMsg { count: 0 };
    let mut store = instantiate("admin".to_string(), &msg);
    let admin = "admin".to_string();
    let broker = "broker1".to_string();
    store.add_broker(&admin, broker.clone(), true).unwrap();

    let mut o2 = sample_property();
    o2.property_type = PropertyType::TwoRoom;
    o2.region = PropertyRegion::Sofia;
    o2.description = Some("sea view".to_string());
    let mut o3 = sample_property();
    o3.property_type = PropertyType::ThreeRoom;

    assert_eq!(Ok(1), store.create_offer(&broker, sample_property()));
    assert_eq!(Ok(2), store.create_offer(&broker, o2.clone()));
    assert_eq!(Ok(3), store.create_offer(&broker, o3));
    assert_eq!(3, store.state.count);

    let got = query_property(&store, 2).unwrap();
    assert_eq!(o2, got.property);
}

#[test]
fn lookup_miss_returns_not_found() {
    let msg = InstantiateMsg { count: 0 };
    let mut store = instantiate("admin".to_string(), &msg);
    let admin = "admin".to_string();
    store.add_broker(&admin, "broker1".to_string(), true).unwrap();
    store
        .create_offer(&"broker1".to_string(), sample_property())
        .unwrap();

    assert_eq!(
        Err(ContractError::PropertyNotFound),
        query_property(&store, 999)
    );
    assert_eq!(
        Err(ContractError::PropertyNotFound),
        query_property(&store, 0)
    );
    assert_eq!(
        Err(ContractError::PropertyNotFound),
        query_property(&store, -1)
    );
}

#[test]
fn end_to_end_scenario() {
    let msg = InstantiateMsg { count: 0 };
    let mut store = instantiate("admin".to_string(), &msg);

    let res = execute(
        &mut store,
        &"admin".to_string(),
        ExecuteMsg::MakeBroker {
            address: "broker1".to_string(),
        },
        true,
    )
    .unwrap();
    assert_eq!(
        ExecEvent::BrokerAdded {
            broker: "broker1".to_string()
        },
        res
    );
    assert_eq!(vec!["broker1".to_string()], store.brokers);

    let res = execute(
        &mut store,
        &"nonadmin".to_string(),
        ExecuteMsg::MakeBroker {
            address: "broker2".to_string(),
        },
        true,
    );
    assert_eq!(Err(ContractError::Unauthorized), res);

    let res = execute(
        &mut store,
        &"broker1".to_string(),
        ExecuteMsg::MakeOffer {
            property: sample_property(),
        },
        true,
    )
    .unwrap();
    assert_eq!(ExecEvent::OfferCreated { id: 1 }, res);

    let got = query(&store, QueryMsg::GetOffer { id: 1 }).unwrap();
    assert_eq!(sample_property(), got.property);

    let res = execute(
        &mut store,
        &"nonbroker".to_string(),
        ExecuteMsg::MakeOffer {
            property: sample_property(),
        },
        true,
    );
    assert_eq!(Err(ContractError::NotBroker), res);
    assert_eq!(1, store.state.count);
}

#[test]
fn reads_are_idempotent() {
    let msg = InstantiateMsg { count: 0 };
    let mut store = instantiate("admin".to_string(), &msg);
    let admin = "admin".to_string();
    store.add_broker(&admin, "broker1".to_string(), true).unwrap();
    store
        .create_offer(&"broker1".to_string(), sample_property())
        .unwrap();

    let first = query_property(&store, 1);
    let second = query_property(&store, 1);
    assert_eq!(first, second);

    let miss_first = query_property(&store, 7);
    let miss_second = query_property(&store, 7);
    assert_eq!(miss_first, miss_second);
}

#[test]
fn increment_is_a_liveness_no_op() {
    let msg = InstantiateMsg { count: 0 };
    let mut store = instantiate("admin".to_string(), &msg);
    let res = try_increment(&mut store).unwrap();
    assert_eq!(ExecEvent::Incremented {}, res);
    assert_eq!(0, store.state.count);

    let res = execute(&mut store, &"anyone".to_string(), ExecuteMsg::Increment {}, true).unwrap();
    assert_eq!(ExecEvent::Incremented {}, res);
    assert_eq!(0, store.state.count);
    assert_eq!(0, store.properties.len());
}

#[test]
fn admin_rotation() {
    let msg = InstantiateMsg { count: 0 };
    let mut store = instantiate("admin".to_string(), &msg);

    let res = execute(
        &mut store,
        &"admin".to_string(),
        ExecuteMsg::UpdateAdmin {
            address: "successor".to_string(),
        },
        true,
    )
    .unwrap();
    assert_eq!(
        ExecEvent::AdminUpdated {
            admin: Some("successor".to_string())
        },
        res
    );
    assert!(store.require_admin(&"successor".to_string()).is_ok());
    assert_eq!(
        Err(ContractError::Unauthorized),
        store.require_admin(&"admin".to_string())
    );

    let res = execute(
        &mut store,
        &"admin".to_string(),
        ExecuteMsg::UpdateAdmin {
            address: "admin".to_string(),
        },
        true,
    );
    assert_eq!(Err(ContractError::Unauthorized), res);

    let res = execute(
        &mut store,
        &"successor".to_string(),
        ExecuteMsg::UpdateAdmin {
            address: "not an address".to_string(),
        },
        false,
    );
    assert_eq!(Err(ContractError::InvalidIdentity), res);
    assert!(store.require_admin(&"successor".to_string()).is_ok());
}

#[test]
fn cleared_admin_locks_rotation_out() {
    let msg = InstantiateMsg { count: 0 };
    let mut store = instantiate("admin".to_string(), &msg);
    let res = store.update_admin(&"admin".to_string(), None);
    assert_eq!(Ok(()), res);
    assert_eq!(
        Err(ContractError::Unauthorized),
        store.require_admin(&"admin".to_string())
    );
    assert_eq!(
        Err(ContractError::Unauthorized),
        store.update_admin(&"admin".to_string(), Some("admin".to_string()))
    );
}

#[test]
fn error_messages() {
    assert_eq!("Unauthorized", ContractError::Unauthorized.message());
    assert_eq!("Invalid identity", ContractError::InvalidIdentity.message());
    assert_eq!(
        "This address is already a broker",
        ContractError::AlreadyBroker.message()
    );
    assert_eq!(
        "This address is not a broker",
        ContractError::NotBroker.message()
    );
    assert_eq!(
        "Property with this id does not exist",
        ContractError::PropertyNotFound.message()
    );
    assert_eq!("Storage failure", ContractError::StorageFailure.message());
}

#[test]
fn is_broker_is_open_to_any_caller() {
    let msg = InstantiateMsg { count: 0 };
    let mut store = instantiate("admin".to_string(), &msg);
    assert!(!store.is_broker(&"broker1".to_string()));
    store
        .add_broker(&"admin".to_string(), "broker1".to_string(), true)
        .unwrap();
    assert!(store.is_broker(&"broker1".to_string()));
    assert!(!store.is_broker(&"admin".to_string()));
}
