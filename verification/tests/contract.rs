use time_gate::contract::{
    execute, execute_update_cycle_start_time, execute_update_gate_addressess,
    execute_update_time_interval, get_current_ado_path, get_cycle_start_time,
    get_gate_addresses, get_time_interval, handle_execute, instantiate, query,
    DEFAULT_TIME_INTERVAL,
};
use time_gate::cycle_start::CycleStartTime;
use time_gate::error::{ContractError, InvalidReason};
use time_gate::msg::{
    attr, Attribute, Event, ExecuteContext, ExecuteMsg, InstantiateMsg, QueryMsg, QueryResponse,
    Response,
};
use time_gate::state::ConfigStore;

const SECOND: u64 = 1_000_000_000;

fn epoch() -> CycleStartTime {
    CycleStartTime { year: 1970, month: 1, day: 1, hour: 0, minute: 0, second: 0 }
}

fn year_2024() -> CycleStartTime {
    CycleStartTime { year: 2024, month: 1, day: 1, hour: 0, minute: 0, second: 0 }
}

fn month_13() -> CycleStartTime {
    CycleStartTime { year: 2024, month: 13, day: 1, hour: 0, minute: 0, second: 0 }
}

fn names(list: &[&str]) -> Vec<String> {
    list.iter().map(|name| name.to_string()).collect()
}

fn owner() -> ExecuteContext {
    ExecuteContext { sender: "owner".to_string(), sender_is_owner: true }
}

fn stranger() -> ExecuteContext {
    ExecuteContext { sender: "stranger".to_string(), sender_is_owner: false }
}

fn invalid(reason: InvalidReason) -> ContractError {
    ContractError::InvalidParameter { reason }
}

fn audit(action: &str, sender: &str) -> Response<String> {
    Response {
        messages: Vec::new(),
        attributes: vec![
            Attribute { key: "action".to_string(), value: action.to_string() },
            Attribute { key: "sender".to_string(), value: sender.to_string() },
        ],
        events: Vec::new(),
    }
}

fn no_hook() -> Response<String> {
    Response::new()
}

fn fee_hook() -> Response<String> {
    Response {
        messages: vec!["pay the fee".to_string()],
        attributes: vec![Attribute { key: "fee".to_string(), value: "1".to_string() }],
        events: vec![Event {
            ty: "fee".to_string(),
            attributes: vec![Attribute { key: "payee".to_string(), value: "owner".to_string() }],
        }],
    }
}

fn gate_abc() -> ConfigStore {
    let mut store = ConfigStore::new();
    let msg = InstantiateMsg {
        cycle_start_time: epoch(),
        gate_addresses: names(&["A", "B", "C"]),
        time_interval: Some(3600),
    };
    assert_eq!(instantiate(&mut store, msg), Ok(()));
    store
}

fn snapshot(store: &ConfigStore) -> (CycleStartTime, Vec<String>, String) {
    (
        get_cycle_start_time(store).unwrap(),
        get_gate_addresses(store).unwrap(),
        get_time_interval(store).unwrap(),
    )
}

#[test]
fn new_store_is_not_initialized() {
    let store = ConfigStore::new();
    assert!(!store.is_initialized());
    assert_eq!(get_gate_addresses(&store), Err(ContractError::NotFound));
    assert_eq!(get_cycle_start_time(&store), Err(ContractError::NotFound));
    assert_eq!(get_time_interval(&store), Err(ContractError::NotFound));
    assert_eq!(get_current_ado_path(&store, 0), Err(ContractError::NotFound));
    assert_eq!(store.load_gate_addresses(), Err(ContractError::NotFound));
    assert_eq!(store.load_cycle_start_time(), Err(ContractError::NotFound));
    assert_eq!(store.load_time_interval(), Err(ContractError::NotFound));
}

#[test]
fn instantiate_stores_the_three_fields() {
    let store = gate_abc();
    assert!(store.is_initialized());
    assert_eq!(get_cycle_start_time(&store), Ok(epoch()));
    assert_eq!(get_gate_addresses(&store), Ok(names(&["A", "B", "C"])));
    assert_eq!(get_time_interval(&store), Ok("3600".to_string()));
    assert_eq!(store.load_time_interval(), Ok(3600));
}

#[test]
fn instantiate_without_interval_takes_the_default() {
    assert_eq!(DEFAULT_TIME_INTERVAL, 3600);
    let mut store = ConfigStore::new();
    let msg = InstantiateMsg {
        cycle_start_time: year_2024(),
        gate_addresses: names(&["only"]),
        time_interval: None,
    };
    assert_eq!(instantiate(&mut store, msg), Ok(()));
    assert_eq!(store.load_time_interval(), Ok(3600));
    assert_eq!(get_time_interval(&store), Ok("3600".to_string()));
}

#[test]
fn instantiate_with_interval_keeps_it() {
    let mut store = ConfigStore::new();
    let msg = InstantiateMsg {
        cycle_start_time: year_2024(),
        gate_addresses: names(&["only"]),
        time_interval: Some(86_400),
    };
    assert_eq!(instantiate(&mut store, msg), Ok(()));
    assert_eq!(get_time_interval(&store), Ok("86400".to_string()));
}

#[test]
fn instantiate_rejects_month_thirteen_and_stores_nothing() {
    let mut store = ConfigStore::new();
    let msg = InstantiateMsg {
        cycle_start_time: month_13(),
        gate_addresses: names(&["A", "B"]),
        time_interval: None,
    };
    assert_eq!(instantiate(&mut store, msg), Err(invalid(InvalidReason::InvalidDate)));
    assert!(!store.is_initialized());
    assert_eq!(get_cycle_start_time(&store), Err(ContractError::NotFound));
}

#[test]
fn instantiate_rejects_an_impossible_time() {
    let mut store = ConfigStore::new();
    let msg = InstantiateMsg {
        cycle_start_time: CycleStartTime {
            year: 2024,
            month: 1,
            day: 1,
            hour: 24,
            minute: 0,
            second: 0,
        },
        gate_addresses: names(&["A", "B"]),
        time_interval: None,
    };
    assert_eq!(instantiate(&mut store, msg), Err(invalid(InvalidReason::InvalidTime)));
    assert!(!store.is_initialized());
}

#[test]
fn instantiate_rejects_an_empty_list() {
    let mut store = ConfigStore::new();
    let msg = InstantiateMsg {
        cycle_start_time: epoch(),
        gate_addresses: Vec::new(),
        time_interval: None,
    };
    assert_eq!(instantiate(&mut store, msg), Err(invalid(InvalidReason::NoGateAddresses)));
    assert!(!store.is_initialized());
}

#[test]
fn instantiate_rejects_an_interval_of_zero() {
    let mut store = ConfigStore::new();
    let msg = InstantiateMsg {
        cycle_start_time: epoch(),
        gate_addresses: names(&["A"]),
        time_interval: Some(0),
    };
    assert_eq!(instantiate(&mut store, msg), Err(invalid(InvalidReason::ZeroTimeInterval)));
    assert!(!store.is_initialized());
}

#[test]
fn instantiate_that_fails_keeps_an_earlier_configuration() {
    let mut store = gate_abc();
    let before = snapshot(&store);
    let msg = InstantiateMsg {
        cycle_start_time: month_13(),
        gate_addresses: names(&["X"]),
        time_interval: Some(5),
    };
    assert_eq!(instantiate(&mut store, msg), Err(invalid(InvalidReason::InvalidDate)));
    assert_eq!(snapshot(&store), before);
}

#[test]
fn rotation_at_one_interval_selects_b() {
    let store = gate_abc();
    assert_eq!(get_current_ado_path(&store, 3600 * SECOND), Ok("B".to_string()));
}

#[test]
fn rotation_at_three_intervals_wraps_around_to_a() {
    let store = gate_abc();
    assert_eq!(get_current_ado_path(&store, 10_800 * SECOND), Ok("A".to_string()));
}

#[test]
fn rotation_walks_through_the_list_in_order() {
    let store = gate_abc();
    let expected = ["A", "B", "C", "A", "B", "C", "A"];
    for (slot, name) in expected.iter().enumerate() {
        let now = (slot as u64) * 3600 * SECOND;
        assert_eq!(get_current_ado_path(&store, now), Ok(name.to_string()));
        assert_eq!(get_current_ado_path(&store, now + 3600 * SECOND - 1), Ok(name.to_string()));
    }
}

#[test]
fn rotation_counts_from_the_configured_start() {
    let mut store = ConfigStore::new();
    let msg = InstantiateMsg {
        cycle_start_time: CycleStartTime {
            year: 2024,
            month: 2,
            day: 29,
            hour: 12,
            minute: 34,
            second: 56,
        },
        gate_addresses: names(&["first", "second"]),
        time_interval: Some(60),
    };
    assert_eq!(instantiate(&mut store, msg), Ok(()));
    let start: u64 = 1_709_210_096 * SECOND;
    assert_eq!(get_current_ado_path(&store, start - 1), Err(ContractError::CycleNotStarted));
    assert_eq!(get_current_ado_path(&store, start), Ok("first".to_string()));
    assert_eq!(get_current_ado_path(&store, start + 60 * SECOND), Ok("second".to_string()));
    assert_eq!(get_current_ado_path(&store, start + 120 * SECOND), Ok("first".to_string()));
}

#[test]
fn query_before_cycle_start_is_cycle_not_started() {
    let mut store = ConfigStore::new();
    let msg = InstantiateMsg {
        cycle_start_time: year_2024(),
        gate_addresses: names(&["A", "B", "C"]),
        time_interval: None,
    };
    assert_eq!(instantiate(&mut store, msg), Ok(()));
    assert_eq!(get_current_ado_path(&store, 0), Err(ContractError::CycleNotStarted));
    assert_eq!(
        get_current_ado_path(&store, 1_704_067_200 * SECOND - 1),
        Err(ContractError::CycleNotStarted)
    );
    assert_eq!(get_current_ado_path(&store, 1_704_067_200 * SECOND), Ok("A".to_string()));
}

#[test]
fn interval_that_overflows_is_an_arithmetic_error_at_query_time() {
    let mut store = gate_abc();
    let r: Result<Response<String>, ContractError> = execute_update_time_interval(
        &mut store,
        owner(),
        u64::MAX,
        "UpdateTimeInterval".to_string(),
    );
    assert_eq!(r, Ok(audit("UpdateTimeInterval", "owner")));
    assert_eq!(get_time_interval(&store), Ok("18446744073709551615".to_string()));
    assert_eq!(get_current_ado_path(&store, 5), Err(ContractError::Overflow));
}

#[test]
fn start_before_the_epoch_is_an_arithmetic_error_at_query_time() {
    let mut store = ConfigStore::new();
    let msg = InstantiateMsg {
        cycle_start_time: CycleStartTime {
            year: 1969,
            month: 12,
            day: 31,
            hour: 23,
            minute: 59,
            second: 59,
        },
        gate_addresses: names(&["A"]),
        time_interval: None,
    };
    assert_eq!(instantiate(&mut store, msg), Ok(()));
    assert_eq!(get_current_ado_path(&store, 0), Err(ContractError::Overflow));
    assert_eq!(get_current_ado_path(&store, u64::MAX), Err(ContractError::Overflow));
}

#[test]
fn current_path_is_the_same_on_repeated_evaluation() {
    let store = gate_abc();
    for now in [0u64, 1, 3600 * SECOND, 7 * 3600 * SECOND + 3, u64::MAX] {
        assert_eq!(get_current_ado_path(&store, now), get_current_ado_path(&store, now));
    }
}

#[test]
fn non_owner_cannot_update_the_cycle_start_time() {
    let mut store = gate_abc();
    let before = snapshot(&store);
    let r: Result<Response<String>, ContractError> = execute_update_cycle_start_time(
        &mut store,
        stranger(),
        year_2024(),
        "UpdateCycleStartTime".to_string(),
    );
    assert_eq!(r, Err(ContractError::Unauthorized));
    assert_eq!(snapshot(&store), before);
}

#[test]
fn non_owner_cannot_update_the_gate_addresses() {
    let mut store = gate_abc();
    let before = snapshot(&store);
    let r: Result<Response<String>, ContractError> = execute_update_gate_addressess(
        &mut store,
        stranger(),
        names(&["X", "Y"]),
        "UpdateGateAddresses".to_string(),
    );
    assert_eq!(r, Err(ContractError::Unauthorized));
    assert_eq!(snapshot(&store), before);
}

#[test]
fn non_owner_cannot_update_the_time_interval() {
    let mut store = gate_abc();
    let before = snapshot(&store);
    let r: Result<Response<String>, ContractError> = execute_update_time_interval(
        &mut store,
        stranger(),
        60,
        "UpdateTimeInterval".to_string(),
    );
    assert_eq!(r, Err(ContractError::Unauthorized));
    assert_eq!(snapshot(&store), before);
}

#[test]
fn non_owner_is_unauthorized_before_anything_is_read() {
    let mut store = ConfigStore::new();
    let r = execute(
        &mut store,
        stranger(),
        ExecuteMsg::UpdateTimeInterval { time_interval: 60 },
        no_hook(),
    );
    assert_eq!(r, Err(ContractError::Unauthorized));
    let r = execute(
        &mut store,
        stranger(),
        ExecuteMsg::UpdateCycleStartTime { cycle_start_time: month_13() },
        no_hook(),
    );
    assert_eq!(r, Err(ContractError::Unauthorized));
    let mut store = gate_abc();
    let r = execute(
        &mut store,
        stranger(),
        ExecuteMsg::UpdateTimeInterval { time_interval: 3600 },
        no_hook(),
    );
    assert_eq!(r, Err(ContractError::Unauthorized));
}

#[test]
fn owner_of_an_uninitialized_gate_finds_nothing_to_update() {
    let mut store = ConfigStore::new();
    let r = execute(
        &mut store,
        owner(),
        ExecuteMsg::UpdateTimeInterval { time_interval: 60 },
        no_hook(),
    );
    assert_eq!(r, Err(ContractError::NotFound));
    let r = execute(
        &mut store,
        owner(),
        ExecuteMsg::UpdateGateAddresses { new_gate_addresses: names(&["X"]) },
        no_hook(),
    );
    assert_eq!(r, Err(ContractError::NotFound));
    let r = execute(
        &mut store,
        owner(),
        ExecuteMsg::UpdateCycleStartTime { cycle_start_time: epoch() },
        no_hook(),
    );
    assert_eq!(r, Err(ContractError::NotFound));
    assert!(!store.is_initialized());
}

#[test]
fn same_cycle_start_time_is_rejected() {
    let mut store = gate_abc();
    let before = snapshot(&store);
    let r: Result<Response<String>, ContractError> = execute_update_cycle_start_time(
        &mut store,
        owner(),
        epoch(),
        "UpdateCycleStartTime".to_string(),
    );
    assert_eq!(r, Err(invalid(InvalidReason::SameCycleStartTime)));
    assert_eq!(snapshot(&store), before);
}

#[test]
fn same_gate_addresses_are_rejected() {
    let mut store = gate_abc();
    let before = snapshot(&store);
    let r: Result<Response<String>, ContractError> = execute_update_gate_addressess(
        &mut store,
        owner(),
        names(&["A", "B", "C"]),
        "UpdateGateAddresses".to_string(),
    );
    assert_eq!(r, Err(invalid(InvalidReason::SameGateAddresses)));
    assert_eq!(snapshot(&store), before);
}

#[test]
fn same_time_interval_is_rejected() {
    let mut store = gate_abc();
    let before = snapshot(&store);
    let r: Result<Response<String>, ContractError> = execute_update_time_interval(
        &mut store,
        owner(),
        3600,
        "UpdateTimeInterval".to_string(),
    );
    assert_eq!(r, Err(invalid(InvalidReason::SameTimeInterval)));
    assert_eq!(snapshot(&store), before);
}

#[test]
fn same_destinations_in_another_order_are_a_change() {
    let mut store = gate_abc();
    let r: Result<Response<String>, ContractError> = execute_update_gate_addressess(
        &mut store,
        owner(),
        names(&["C", "B", "A"]),
        "UpdateGateAddresses".to_string(),
    );
    assert_eq!(r, Ok(audit("UpdateGateAddresses", "owner")));
    assert_eq!(get_gate_addresses(&store), Ok(names(&["C", "B", "A"])));
    assert_eq!(get_current_ado_path(&store, 0), Ok("C".to_string()));
}

#[test]
fn a_prefix_of_the_stored_list_is_a_change() {
    let mut store = gate_abc();
    let r: Result<Response<String>, ContractError> = execute_update_gate_addressess(
        &mut store,
        owner(),
        names(&["A", "B"]),
        "UpdateGateAddresses".to_string(),
    );
    assert_eq!(r, Ok(audit("UpdateGateAddresses", "owner")));
    assert_eq!(get_gate_addresses(&store), Ok(names(&["A", "B"])));
}

#[test]
fn update_gate_addresses_round_trip() {
    let mut store = gate_abc();
    let r = execute(
        &mut store,
        owner(),
        ExecuteMsg::UpdateGateAddresses { new_gate_addresses: names(&["X", "Y"]) },
        no_hook(),
    );
    assert_eq!(r, Ok(audit("UpdateGateAddresses", "owner")));
    assert_eq!(get_gate_addresses(&store), Ok(names(&["X", "Y"])));
    assert_eq!(get_cycle_start_time(&store), Ok(epoch()));
    assert_eq!(get_time_interval(&store), Ok("3600".to_string()));
}

#[test]
fn update_cycle_start_time_changes_that_field_alone() {
    let mut store = gate_abc();
    let r = execute(
        &mut store,
        owner(),
        ExecuteMsg::UpdateCycleStartTime { cycle_start_time: year_2024() },
        no_hook(),
    );
    assert_eq!(r, Ok(audit("UpdateCycleStartTime", "owner")));
    assert_eq!(get_cycle_start_time(&store), Ok(year_2024()));
    assert_eq!(get_gate_addresses(&store), Ok(names(&["A", "B", "C"])));
    assert_eq!(get_time_interval(&store), Ok("3600".to_string()));
}

#[test]
fn update_time_interval_changes_that_field_alone() {
    let mut store = gate_abc();
    let r = execute(
        &mut store,
        owner(),
        ExecuteMsg::UpdateTimeInterval { time_interval: 60 },
        no_hook(),
    );
    assert_eq!(r, Ok(audit("UpdateTimeInterval", "owner")));
    assert_eq!(get_time_interval(&store), Ok("60".to_string()));
    assert_eq!(get_cycle_start_time(&store), Ok(epoch()));
    assert_eq!(get_gate_addresses(&store), Ok(names(&["A", "B", "C"])));
    assert_eq!(get_current_ado_path(&store, 60 * SECOND), Ok("B".to_string()));
}

#[test]
fn update_rejects_month_thirteen_and_keeps_the_stored_start() {
    let mut store = gate_abc();
    let before = snapshot(&store);
    let r: Result<Response<String>, ContractError> = execute_update_cycle_start_time(
        &mut store,
        owner(),
        month_13(),
        "UpdateCycleStartTime".to_string(),
    );
    assert_eq!(r, Err(invalid(InvalidReason::InvalidDate)));
    assert_eq!(snapshot(&store), before);
}

#[test]
fn update_rejects_an_impossible_time() {
    let mut store = gate_abc();
    let before = snapshot(&store);
    let bad = CycleStartTime { year: 2024, month: 1, day: 1, hour: 0, minute: 60, second: 0 };
    let r = execute(
        &mut store,
        owner(),
        ExecuteMsg::UpdateCycleStartTime { cycle_start_time: bad },
        no_hook(),
    );
    assert_eq!(r, Err(invalid(InvalidReason::InvalidTime)));
    assert_eq!(snapshot(&store), before);
}

#[test]
fn update_rejects_an_empty_list() {
    let mut store = gate_abc();
    let before = snapshot(&store);
    let r = execute(
        &mut store,
        owner(),
        ExecuteMsg::UpdateGateAddresses { new_gate_addresses: Vec::new() },
        no_hook(),
    );
    assert_eq!(r, Err(invalid(InvalidReason::NoGateAddresses)));
    assert_eq!(snapshot(&store), before);
}

#[test]
fn update_rejects_an_interval_of_zero() {
    let mut store = gate_abc();
    let before = snapshot(&store);
    let r = execute(
        &mut store,
        owner(),
        ExecuteMsg::UpdateTimeInterval { time_interval: 0 },
        no_hook(),
    );
    assert_eq!(r, Err(invalid(InvalidReason::ZeroTimeInterval)));
    assert_eq!(snapshot(&store), before);
}

#[test]
fn acknowledgment_names_the_action_and_the_sender() {
    let mut store = gate_abc();
    let ctx = ExecuteContext { sender: "cosmos1owner".to_string(), sender_is_owner: true };
    let r: Result<Response<String>, ContractError> =
        execute_update_time_interval(&mut store, ctx, 7, "anything".to_string());
    assert_eq!(r, Ok(audit("anything", "cosmos1owner")));
    let response: Response<String> = Response::audit("act".to_string(), "who".to_string());
    assert!(response.messages.is_empty());
    assert!(response.events.is_empty());
    assert_eq!(response.attributes.len(), 2);
    assert_eq!(response.attributes[0].key, "action");
    assert_eq!(response.attributes[0].value, "act");
    assert_eq!(response.attributes[1].key, "sender");
    assert_eq!(response.attributes[1].value, "who");
}

#[test]
fn each_change_is_recorded_under_the_name_of_its_variant() {
    assert_eq!(
        ExecuteMsg::UpdateCycleStartTime { cycle_start_time: epoch() }.action(),
        "UpdateCycleStartTime"
    );
    assert_eq!(
        ExecuteMsg::UpdateGateAddresses { new_gate_addresses: Vec::new() }.action(),
        "UpdateGateAddresses"
    );
    assert_eq!(ExecuteMsg::UpdateTimeInterval { time_interval: 1 }.action(), "UpdateTimeInterval");
}

#[test]
fn handle_execute_and_execute_agree() {
    let messages = [
        ExecuteMsg::UpdateCycleStartTime { cycle_start_time: year_2024() },
        ExecuteMsg::UpdateCycleStartTime { cycle_start_time: epoch() },
        ExecuteMsg::UpdateCycleStartTime { cycle_start_time: month_13() },
        ExecuteMsg::UpdateGateAddresses { new_gate_addresses: names(&["X", "Y"]) },
        ExecuteMsg::UpdateGateAddresses { new_gate_addresses: names(&["A", "B", "C"]) },
        ExecuteMsg::UpdateTimeInterval { time_interval: 60 },
        ExecuteMsg::UpdateTimeInterval { time_interval: 3600 },
    ];
    for msg in messages {
        for ctx in [owner(), stranger()] {
            let mut first = gate_abc();
            let mut second = gate_abc();
            let r1 = handle_execute(&mut first, ctx.clone(), msg.clone(), no_hook());
            let r2 = execute(&mut second, ctx, msg.clone(), no_hook());
            assert_eq!(r1, r2);
            assert_eq!(snapshot(&first), snapshot(&second));
        }
    }
}

#[test]
fn query_answers_each_question() {
    let store = gate_abc();
    assert_eq!(
        query(&store, 3600 * SECOND, QueryMsg::GetGateAddresses),
        Ok(QueryResponse::GateAddresses(names(&["A", "B", "C"])))
    );
    assert_eq!(
        query(&store, 3600 * SECOND, QueryMsg::GetCycleStartTime),
        Ok(QueryResponse::CycleStartTime(epoch()))
    );
    assert_eq!(
        query(&store, 3600 * SECOND, QueryMsg::GetTimeInterval),
        Ok(QueryResponse::TimeInterval("3600".to_string()))
    );
    assert_eq!(
        query(&store, 3600 * SECOND, QueryMsg::GetCurrentAdoPath),
        Ok(QueryResponse::CurrentAdoPath("B".to_string()))
    );
}

#[test]
fn query_of_an_uninitialized_gate_finds_nothing() {
    let store = ConfigStore::new();
    for msg in [
        QueryMsg::GetGateAddresses,
        QueryMsg::GetCycleStartTime,
        QueryMsg::GetTimeInterval,
        QueryMsg::GetCurrentAdoPath,
    ] {
        assert_eq!(query(&store, 0, msg), Err(ContractError::NotFound));
    }
}

#[test]
fn query_passes_the_failure_of_the_rotation_on() {
    let mut store = ConfigStore::new();
    let msg = InstantiateMsg {
        cycle_start_time: year_2024(),
        gate_addresses: names(&["A"]),
        time_interval: None,
    };
    assert_eq!(instantiate(&mut store, msg), Ok(()));
    assert_eq!(
        query(&store, 0, QueryMsg::GetCurrentAdoPath),
        Err(ContractError::CycleNotStarted)
    );
}

#[test]
fn queries_do_not_change_the_store() {
    let store = gate_abc();
    let before = snapshot(&store);
    let _ = query(&store, 5, QueryMsg::GetCurrentAdoPath);
    let _ = query(&store, 5, QueryMsg::GetGateAddresses);
    assert_eq!(snapshot(&store), before);
}

#[test]
fn destinations_may_repeat_and_keep_their_positions() {
    let mut store = ConfigStore::new();
    let msg = InstantiateMsg {
        cycle_start_time: epoch(),
        gate_addresses: names(&["A", "A", "B"]),
        time_interval: Some(1),
    };
    assert_eq!(instantiate(&mut store, msg), Ok(()));
    assert_eq!(get_gate_addresses(&store), Ok(names(&["A", "A", "B"])));
    assert_eq!(get_current_ado_path(&store, 0), Ok("A".to_string()));
    assert_eq!(get_current_ado_path(&store, SECOND), Ok("A".to_string()));
    assert_eq!(get_current_ado_path(&store, 2 * SECOND), Ok("B".to_string()));
}

#[test]
fn hook_response_is_merged_behind_the_audit_record() {
    let mut store = gate_abc();
    let r = handle_execute(
        &mut store,
        owner(),
        ExecuteMsg::UpdateTimeInterval { time_interval: 60 },
        fee_hook(),
    );
    let expected = Response {
        messages: vec!["pay the fee".to_string()],
        attributes: vec![
            Attribute { key: "action".to_string(), value: "UpdateTimeInterval".to_string() },
            Attribute { key: "sender".to_string(), value: "owner".to_string() },
            Attribute { key: "fee".to_string(), value: "1".to_string() },
        ],
        events: vec![Event {
            ty: "fee".to_string(),
            attributes: vec![Attribute { key: "payee".to_string(), value: "owner".to_string() }],
        }],
    };
    assert_eq!(r, Ok(expected));
    assert_eq!(get_time_interval(&store), Ok("60".to_string()));
}

#[test]
fn hook_response_is_dropped_with_a_change_that_fails() {
    let mut store = gate_abc();
    let before = snapshot(&store);
    let r = handle_execute(
        &mut store,
        stranger(),
        ExecuteMsg::UpdateTimeInterval { time_interval: 60 },
        fee_hook(),
    );
    assert_eq!(r, Err(ContractError::Unauthorized));
    let r = execute(
        &mut store,
        owner(),
        ExecuteMsg::UpdateTimeInterval { time_interval: 3600 },
        fee_hook(),
    );
    assert_eq!(r, Err(invalid(InvalidReason::SameTimeInterval)));
    assert_eq!(snapshot(&store), before);
}

#[test]
fn responses_are_built_piece_by_piece() {
    let empty: Response<u8> = Response::new();
    assert_eq!(empty, Response { messages: vec![], attributes: vec![], events: vec![] });
    let built = empty
        .add_submessages(vec![1, 2])
        .add_attributes(vec![attr("k", "v".to_string())])
        .add_events(vec![Event { ty: "t".to_string(), attributes: vec![] }])
        .add_submessages(vec![3])
        .add_attributes(vec![attr("l", "w".to_string())]);
    assert_eq!(built.messages, vec![1, 2, 3]);
    assert_eq!(
        built.attributes,
        vec![
            Attribute { key: "k".to_string(), value: "v".to_string() },
            Attribute { key: "l".to_string(), value: "w".to_string() },
        ]
    );
    assert_eq!(built.events, vec![Event { ty: "t".to_string(), attributes: vec![] }]);
}

#[test]
fn merge_keeps_the_first_response_in_front() {
    let first: Response<u8> = Response::new()
        .add_submessages(vec![1])
        .add_attributes(vec![attr("a", "1".to_string())]);
    let second: Response<u8> = Response::new()
        .add_submessages(vec![2])
        .add_attributes(vec![attr("b", "2".to_string())])
        .add_events(vec![Event { ty: "e".to_string(), attributes: vec![] }]);
    let merged = first.merge(second);
    assert_eq!(merged.messages, vec![1, 2]);
    assert_eq!(merged.attributes, vec![attr("a", "1".to_string()), attr("b", "2".to_string())]);
    assert_eq!(merged.events.len(), 1);
}
