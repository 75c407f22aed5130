//! The time gate itself: initialization, the three owner-only changes, and the
//! questions that anyone can ask.
//!
//! Every operation is stated twice: as a spec function from the content of the
//! store and the request to the outcome, and as the executable function that
//! is proved to produce that outcome and to leave the store as the outcome
//! says.

use vstd::prelude::*;
use crate::cycle_start::CycleStartTime;
use crate::decimal::{decimal_digits, decimal_string};
use crate::error::{ContractError, InvalidReason};
use crate::msg::{
    audit_response,
    ExecuteContext,
    ExecuteMsg,
    InstantiateMsg,
    QueryMsg,
    QueryResponse,
    Response,
    ResponseView,
};
use crate::rotation::{
    lemma_started_cycle_selects_a_slot,
    select_active_index,
    spec_select_active_index,
    NANOS_PER_SECOND,
};
use crate::state::{wf_state, ConfigStore, ConfigurationView};

verus! {

/// The rotation interval, in seconds, of a time gate that is initialized
/// without one.
pub const DEFAULT_TIME_INTERVAL: u64 = 3600;

/// The rules of the destination list: it is not empty.
pub open spec fn spec_validate_gate_addresses(gate_addresses: Seq<Seq<char>>) -> Result<
    (),
    ContractError,
> {
    if gate_addresses.len() == 0 {
        Err(ContractError::InvalidParameter { reason: InvalidReason::NoGateAddresses })
    } else {
        Ok(())
    }
}

/// The rules of the rotation interval: it is positive.
pub open spec fn spec_validate_time_interval(time_interval: u64) -> Result<(), ContractError> {
    if time_interval == 0 {
        Err(ContractError::InvalidParameter { reason: InvalidReason::ZeroTimeInterval })
    } else {
        Ok(())
    }
}

/// The outcome of initialization: the configuration that is stored, or the
/// first rule that the message breaks.
pub open spec fn spec_instantiate(msg: InstantiateMsg) -> Result<ConfigurationView, ContractError> {
    let time_interval = match msg.time_interval {
        Some(seconds) => seconds,
        None => DEFAULT_TIME_INTERVAL,
    };
    if let Err(e) = msg.cycle_start_time.spec_validate() {
        Err(e)
    } else if let Err(e) = spec_validate_gate_addresses(msg.gate_addresses.deep_view()) {
        Err(e)
    } else if let Err(e) = spec_validate_time_interval(time_interval) {
        Err(e)
    } else {
        Ok(
            ConfigurationView {
                cycle_start_time: msg.cycle_start_time,
                gate_addresses: msg.gate_addresses.deep_view(),
                time_interval,
            },
        )
    }
}

/// The outcome of a change of the start of the cycle.
pub open spec fn spec_update_cycle_start_time(
    state: Option<ConfigurationView>,
    sender_is_owner: bool,
    cycle_start_time: CycleStartTime,
) -> Result<ConfigurationView, ContractError> {
    if !sender_is_owner {
        Err(ContractError::Unauthorized)
    } else {
        match state {
            None => Err(ContractError::NotFound),
            Some(current) => if current.cycle_start_time == cycle_start_time {
                Err(ContractError::InvalidParameter { reason: InvalidReason::SameCycleStartTime })
            } else if let Err(e) = cycle_start_time.spec_validate() {
                Err(e)
            } else {
                Ok(ConfigurationView { cycle_start_time, ..current })
            },
        }
    }
}

/// The outcome of a change of the destinations. A list is the stored one
/// where it has the same destinations at the same positions.
pub open spec fn spec_update_gate_addresses(
    state: Option<ConfigurationView>,
    sender_is_owner: bool,
    new_gate_addresses: Seq<Seq<char>>,
) -> Result<ConfigurationView, ContractError> {
    if !sender_is_owner {
        Err(ContractError::Unauthorized)
    } else {
        match state {
            None => Err(ContractError::NotFound),
            Some(current) => if current.gate_addresses == new_gate_addresses {
                Err(ContractError::InvalidParameter { reason: InvalidReason::SameGateAddresses })
            } else if let Err(e) = spec_validate_gate_addresses(new_gate_addresses) {
                Err(e)
            } else {
                Ok(ConfigurationView { gate_addresses: new_gate_addresses, ..current })
            },
        }
    }
}

/// The outcome of a change of the rotation interval.
pub open spec fn spec_update_time_interval(
    state: Option<ConfigurationView>,
    sender_is_owner: bool,
    time_interval: u64,
) -> Result<ConfigurationView, ContractError> {
    if !sender_is_owner {
        Err(ContractError::Unauthorized)
    } else {
        match state {
            None => Err(ContractError::NotFound),
            Some(current) => if current.time_interval == time_interval {
                Err(ContractError::InvalidParameter { reason: InvalidReason::SameTimeInterval })
            } else if let Err(e) = spec_validate_time_interval(time_interval) {
                Err(e)
            } else {
                Ok(ConfigurationView { time_interval, ..current })
            },
        }
    }
}

/// The outcome of any of the three changes.
pub open spec fn spec_handle_execute(
    state: Option<ConfigurationView>,
    sender_is_owner: bool,
    msg: ExecuteMsg,
) -> Result<ConfigurationView, ContractError> {
    match msg {
        ExecuteMsg::UpdateCycleStartTime { cycle_start_time } => spec_update_cycle_start_time(
            state,
            sender_is_owner,
            cycle_start_time,
        ),
        ExecuteMsg::UpdateGateAddresses { new_gate_addresses } => spec_update_gate_addresses(
            state,
            sender_is_owner,
            new_gate_addresses.deep_view(),
        ),
        ExecuteMsg::UpdateTimeInterval { time_interval } => spec_update_time_interval(
            state,
            sender_is_owner,
            time_interval,
        ),
    }
}

/// How a call that was to produce `outcome` has ended. On success the store
/// holds the new configuration and the caller gets `acknowledgment`; on
/// failure the store holds what it held and the caller gets the error.
pub open spec fn is_commit_of<M>(
    outcome: Result<ConfigurationView, ContractError>,
    before: Option<ConfigurationView>,
    after: Option<ConfigurationView>,
    r: Result<Response<M>, ContractError>,
    acknowledgment: ResponseView<M>,
) -> bool {
    match outcome {
        Ok(next) => {
            &&& after == Some(next)
            &&& r matches Ok(response)
            &&& response@ == acknowledgment
        },
        Err(e) => {
            &&& after == before
            &&& r == Err::<Response<M>, ContractError>(e)
        },
    }
}

/// Whether two lists hold the same destinations at the same positions.
fn same_gate_addresses(first: &Vec<String>, second: &Vec<String>) -> (same: bool)
    ensures
        same == (first.deep_view() == second.deep_view()),
{
    if first.len() != second.len() {
        assert(first.deep_view().len() != second.deep_view().len());
        return false;
    }
    let mut i: usize = 0;
    while i < first.len()
        invariant
            i <= first.len(),
            first.len() == second.len(),
            forall|j: int| 0 <= j < i ==> first[j]@ == second[j]@,
        decreases first.len() - i,
    {
        if first[i] != second[i] {
            assert(first.deep_view()[i as int] != second.deep_view()[i as int]);
            return false;
        }
        i += 1;
    }
    assert(first.deep_view() =~= second.deep_view());
    true
}

/// Checks that a destination list is not empty.
fn validate_gate_addresses(gate_addresses: &Vec<String>) -> (r: Result<(), ContractError>)
    ensures
        r == spec_validate_gate_addresses(gate_addresses.deep_view()),
{
    if gate_addresses.len() == 0 {
        Err(ContractError::InvalidParameter { reason: InvalidReason::NoGateAddresses })
    } else {
        Ok(())
    }
}

/// Checks that a rotation interval is positive.
fn validate_time_interval(time_interval: u64) -> (r: Result<(), ContractError>)
    ensures
        r == spec_validate_time_interval(time_interval),
{
    if time_interval == 0 {
        Err(ContractError::InvalidParameter { reason: InvalidReason::ZeroTimeInterval })
    } else {
        Ok(())
    }
}

/// Initializes the time gate: validates the message and stores the
/// configuration, with the default interval where the message names none. A
/// message that is refused leaves the store as it was.
pub fn instantiate(store: &mut ConfigStore, msg: InstantiateMsg) -> (r: Result<(), ContractError>)
    ensures
        match spec_instantiate(msg) {
            Ok(config) => r is Ok && final(store)@ == Some(config) && config.wf(),
            Err(e) => r == Err::<(), ContractError>(e) && *final(store) == *old(store),
        },
{
    let InstantiateMsg { cycle_start_time, gate_addresses, time_interval } = msg;
    if let Err(e) = cycle_start_time.validate() {
        return Err(e);
    }
    let time_interval_seconds: u64 = match time_interval {
        Some(seconds) => seconds,
        None => DEFAULT_TIME_INTERVAL,
    };
    if let Err(e) = validate_gate_addresses(&gate_addresses) {
        return Err(e);
    }
    if let Err(e) = validate_time_interval(time_interval_seconds) {
        return Err(e);
    }
    store.save(cycle_start_time, gate_addresses, time_interval_seconds);
    Ok(())
}

/// Changes the start of the cycle, for the owner alone, to a real date and
/// time that differs from the stored one.
pub fn execute_update_cycle_start_time<M>(
    store: &mut ConfigStore,
    ctx: ExecuteContext,
    cycle_start_time: CycleStartTime,
    action: String,
) -> (r: Result<Response<M>, ContractError>)
    ensures
        is_commit_of(
            spec_update_cycle_start_time(old(store)@, ctx.sender_is_owner, cycle_start_time),
            old(store)@,
            final(store)@,
            r,
            audit_response::<M>(action@, ctx.sender@),
        ),
        r is Err ==> *final(store) == *old(store),
        wf_state(final(store)@),
{
    let ExecuteContext { sender, sender_is_owner } = ctx;
    proof {
        use_type_invariant(&*store);
    }
    if !sender_is_owner {
        return Err(ContractError::Unauthorized);
    }
    let old_cycle_start_time: CycleStartTime = match store.load_cycle_start_time() {
        Ok(stored) => stored,
        Err(e) => {
            return Err(e);
        },
    };
    if old_cycle_start_time == cycle_start_time {
        return Err(
            ContractError::InvalidParameter { reason: InvalidReason::SameCycleStartTime },
        );
    }
    if let Err(e) = cycle_start_time.validate() {
        return Err(e);
    }
    store.save_cycle_start_time(cycle_start_time);
    Ok(Response::audit(action, sender))
}

/// Changes the destinations, for the owner alone, to a list that is not empty
/// and differs from the stored one.
pub fn execute_update_gate_addressess<M>(
    store: &mut ConfigStore,
    ctx: ExecuteContext,
    new_gate_addresses: Vec<String>,
    action: String,
) -> (r: Result<Response<M>, ContractError>)
    ensures
        is_commit_of(
            spec_update_gate_addresses(
                old(store)@,
                ctx.sender_is_owner,
                new_gate_addresses.deep_view(),
            ),
            old(store)@,
            final(store)@,
            r,
            audit_response::<M>(action@, ctx.sender@),
        ),
        r is Err ==> *final(store) == *old(store),
        wf_state(final(store)@),
{
    let ExecuteContext { sender, sender_is_owner } = ctx;
    proof {
        use_type_invariant(&*store);
    }
    if !sender_is_owner {
        return Err(ContractError::Unauthorized);
    }
    let old_gate_addresses: Vec<String> = match store.load_gate_addresses() {
        Ok(stored) => stored,
        Err(e) => {
            return Err(e);
        },
    };
    if same_gate_addresses(&old_gate_addresses, &new_gate_addresses) {
        return Err(ContractError::InvalidParameter { reason: InvalidReason::SameGateAddresses });
    }
    if let Err(e) = validate_gate_addresses(&new_gate_addresses) {
        return Err(e);
    }
    store.save_gate_addresses(new_gate_addresses);
    Ok(Response::audit(action, sender))
}

/// Changes the rotation interval, for the owner alone, to a positive number
/// of seconds that differs from the stored one.
pub fn execute_update_time_interval<M>(
    store: &mut ConfigStore,
    ctx: ExecuteContext,
    time_interval: u64,
    action: String,
) -> (r: Result<Response<M>, ContractError>)
    ensures
        is_commit_of(
            spec_update_time_interval(old(store)@, ctx.sender_is_owner, time_interval),
            old(store)@,
            final(store)@,
            r,
            audit_response::<M>(action@, ctx.sender@),
        ),
        r is Err ==> *final(store) == *old(store),
        wf_state(final(store)@),
{
    let ExecuteContext { sender, sender_is_owner } = ctx;
    proof {
        use_type_invariant(&*store);
    }
    if !sender_is_owner {
        return Err(ContractError::Unauthorized);
    }
    let old_time_interval: u64 = match store.load_time_interval() {
        Ok(stored) => stored,
        Err(e) => {
            return Err(e);
        },
    };
    if old_time_interval == time_interval {
        return Err(ContractError::InvalidParameter { reason: InvalidReason::SameTimeInterval });
    }
    if let Err(e) = validate_time_interval(time_interval) {
        return Err(e);
    }
    store.save_time_interval(time_interval);
    Ok(Response::audit(action, sender))
}

/// The acknowledgment of a change that went through `handle_execute`: the
/// audit record under the name of the variant, then whatever the hook that ran
/// before the change has handed in.
pub open spec fn spec_acknowledgment<M>(
    msg: ExecuteMsg,
    sender: Seq<char>,
    action_response: ResponseView<M>,
) -> ResponseView<M> {
    audit_response::<M>(msg.spec_action(), sender).merge(action_response)
}

/// Carries out one change and records it under the name of its variant.
///
/// `action_response` is what the hook that runs before every change has
/// answered. It is merged into the acknowledgment of a change that succeeds
/// and dropped with a change that fails.
pub fn handle_execute<M>(
    store: &mut ConfigStore,
    ctx: ExecuteContext,
    msg: ExecuteMsg,
    action_response: Response<M>,
) -> (r: Result<Response<M>, ContractError>)
    ensures
        is_commit_of(
            spec_handle_execute(old(store)@, ctx.sender_is_owner, msg),
            old(store)@,
            final(store)@,
            r,
            spec_acknowledgment(msg, ctx.sender@, action_response@),
        ),
        r is Err ==> *final(store) == *old(store),
        wf_state(final(store)@),
{
    let action: String = msg.action();
    let res: Result<Response<M>, ContractError> = match msg {
        ExecuteMsg::UpdateCycleStartTime { cycle_start_time } => execute_update_cycle_start_time(
            store,
            ctx,
            cycle_start_time,
            action,
        ),
        ExecuteMsg::UpdateGateAddresses { new_gate_addresses } => execute_update_gate_addressess(
            store,
            ctx,
            new_gate_addresses,
            action,
        ),
        ExecuteMsg::UpdateTimeInterval { time_interval } => execute_update_time_interval(
            store,
            ctx,
            time_interval,
            action,
        ),
    };
    match res {
        Ok(response) => Ok(response.merge(action_response)),
        Err(e) => Err(e),
    }
}

/// The entry point of a change. A change that arrives in an envelope is
/// unwrapped by whoever receives it and then takes this same way: there are
/// no other rules for it.
pub fn execute<M>(
    store: &mut ConfigStore,
    ctx: ExecuteContext,
    msg: ExecuteMsg,
    action_response: Response<M>,
) -> (r: Result<Response<M>, ContractError>)
    ensures
        is_commit_of(
            spec_handle_execute(old(store)@, ctx.sender_is_owner, msg),
            old(store)@,
            final(store)@,
            r,
            spec_acknowledgment(msg, ctx.sender@, action_response@),
        ),
        r is Err ==> *final(store) == *old(store),
        wf_state(final(store)@),
{
    handle_execute(store, ctx, msg, action_response)
}

/// The destination that is active at `current_instant`, as it was configured.
pub open spec fn spec_current_ado_path(
    state: Option<ConfigurationView>,
    current_instant: u64,
) -> Result<Seq<char>, ContractError> {
    match state {
        None => Err(ContractError::NotFound),
        Some(config) => match config.cycle_start_time.spec_epoch_nanos() {
            Err(e) => Err(e),
            Ok(cycle_start_instant) => match spec_select_active_index(
                current_instant as int,
                cycle_start_instant as int,
                config.time_interval as int,
                config.gate_addresses.len() as int,
            ) {
                Err(e) => Err(e),
                Ok(index) => Ok(config.gate_addresses[index]),
            },
        },
    }
}

/// Whether `r` hands out the destinations that `state` holds, in their order.
pub open spec fn is_gate_addresses_of(
    r: Result<Vec<String>, ContractError>,
    state: Option<ConfigurationView>,
) -> bool {
    match state {
        Some(config) => r matches Ok(list) && list.deep_view() == config.gate_addresses,
        None => r == Err::<Vec<String>, ContractError>(ContractError::NotFound),
    }
}

/// Whether `r` is the destination that is active in `state` at
/// `current_instant`, or the reason why there is none.
pub open spec fn is_current_ado_path_of(
    r: Result<String, ContractError>,
    state: Option<ConfigurationView>,
    current_instant: u64,
) -> bool {
    match spec_current_ado_path(state, current_instant) {
        Ok(path) => r matches Ok(found) && found@ == path,
        Err(e) => r == Err::<String, ContractError>(e),
    }
}

/// Reads the destinations, in rotation order.
pub fn get_gate_addresses(store: &ConfigStore) -> (r: Result<Vec<String>, ContractError>)
    ensures
        is_gate_addresses_of(r, store@),
        wf_state(store@),
{
    store.load_gate_addresses()
}

/// Reads the start of the cycle.
pub fn get_cycle_start_time(store: &ConfigStore) -> (r: Result<CycleStartTime, ContractError>)
    ensures
        match store@ {
            Some(config) => r == Ok::<CycleStartTime, ContractError>(config.cycle_start_time),
            None => r == Err::<CycleStartTime, ContractError>(ContractError::NotFound),
        },
        wf_state(store@),
{
    store.load_cycle_start_time()
}

/// Reads the rotation interval and writes it, in seconds, in decimal notation.
pub fn get_time_interval(store: &ConfigStore) -> (r: Result<String, ContractError>)
    ensures
        match store@ {
            Some(config) => r matches Ok(text) && text@ == decimal_digits(
                config.time_interval as nat,
            ),
            None => r == Err::<String, ContractError>(ContractError::NotFound),
        },
        wf_state(store@),
{
    match store.load_time_interval() {
        Ok(seconds) => Ok(decimal_string(seconds)),
        Err(e) => Err(e),
    }
}

/// Finds the destination that is active at `current_instant`, given in
/// nanoseconds since the Unix epoch by whoever keeps the clock.
///
/// The result is the destination as it was configured; to resolve it to
/// whatever it refers to is the caller's business.
pub fn get_current_ado_path(store: &ConfigStore, current_instant: u64) -> (r: Result<
    String,
    ContractError,
>)
    ensures
        is_current_ado_path_of(r, store@, current_instant),
        wf_state(store@),
{
    let cycle_start_time: CycleStartTime = match store.load_cycle_start_time() {
        Ok(stored) => stored,
        Err(e) => {
            return Err(e);
        },
    };
    let gate_addresses: Vec<String> = match store.load_gate_addresses() {
        Ok(stored) => stored,
        Err(e) => {
            return Err(e);
        },
    };
    let time_interval: u64 = match store.load_time_interval() {
        Ok(stored) => stored,
        Err(e) => {
            return Err(e);
        },
    };
    let cycle_start_nanos: u64 = match cycle_start_time.epoch_nanos() {
        Ok(nanos) => nanos,
        Err(e) => {
            return Err(e);
        },
    };
    let index: usize = match select_active_index(
        current_instant,
        cycle_start_nanos,
        time_interval,
        gate_addresses.len(),
    ) {
        Ok(index) => index,
        Err(e) => {
            return Err(e);
        },
    };
    let current_ado_path: String = gate_addresses[index].clone();
    Ok(current_ado_path)
}

/// Whether `r` answers the question `msg` asked of `state` at
/// `current_instant`.
pub open spec fn is_answer_to(
    r: Result<QueryResponse, ContractError>,
    state: Option<ConfigurationView>,
    current_instant: u64,
    msg: QueryMsg,
) -> bool {
    match msg {
        QueryMsg::GetCurrentAdoPath => match spec_current_ado_path(state, current_instant) {
            Ok(path) => r matches Ok(QueryResponse::CurrentAdoPath(found)) && found@ == path,
            Err(e) => r == Err::<QueryResponse, ContractError>(e),
        },
        QueryMsg::GetCycleStartTime => match state {
            Some(config) => r matches Ok(QueryResponse::CycleStartTime(start)) && start
                == config.cycle_start_time,
            None => r == Err::<QueryResponse, ContractError>(ContractError::NotFound),
        },
        QueryMsg::GetGateAddresses => match state {
            Some(config) => r matches Ok(QueryResponse::GateAddresses(list)) && list.deep_view()
                == config.gate_addresses,
            None => r == Err::<QueryResponse, ContractError>(ContractError::NotFound),
        },
        QueryMsg::GetTimeInterval => match state {
            Some(config) => r matches Ok(QueryResponse::TimeInterval(text)) && text@
                == decimal_digits(config.time_interval as nat),
            None => r == Err::<QueryResponse, ContractError>(ContractError::NotFound),
        },
    }
}

/// Answers one question. No question changes the store.
pub fn query(store: &ConfigStore, current_instant: u64, msg: QueryMsg) -> (r: Result<
    QueryResponse,
    ContractError,
>)
    ensures
        is_answer_to(r, store@, current_instant, msg),
{
    match msg {
        QueryMsg::GetGateAddresses => match get_gate_addresses(store) {
            Ok(list) => Ok(QueryResponse::GateAddresses(list)),
            Err(e) => Err(e),
        },
        QueryMsg::GetCycleStartTime => match get_cycle_start_time(store) {
            Ok(start) => Ok(QueryResponse::CycleStartTime(start)),
            Err(e) => Err(e),
        },
        QueryMsg::GetCurrentAdoPath => match get_current_ado_path(store, current_instant) {
            Ok(path) => Ok(QueryResponse::CurrentAdoPath(path)),
            Err(e) => Err(e),
        },
        QueryMsg::GetTimeInterval => match get_time_interval(store) {
            Ok(text) => Ok(QueryResponse::TimeInterval(text)),
            Err(e) => Err(e),
        },
    }
}

/// Whether `msg` proposes, for the field that it changes, the value that
/// `config` holds already.
pub open spec fn proposes_stored_value(config: ConfigurationView, msg: ExecuteMsg) -> bool {
    match msg {
        ExecuteMsg::UpdateCycleStartTime { cycle_start_time } => cycle_start_time
            == config.cycle_start_time,
        ExecuteMsg::UpdateGateAddresses { new_gate_addresses } => new_gate_addresses.deep_view()
            == config.gate_addresses,
        ExecuteMsg::UpdateTimeInterval { time_interval } => time_interval == config.time_interval,
    }
}

/// Whether `msg` proposes a start of the cycle that is no real date and time.
pub open spec fn proposes_unreal_start(msg: ExecuteMsg) -> bool {
    msg matches ExecuteMsg::UpdateCycleStartTime { cycle_start_time }
        && !cycle_start_time.is_valid()
}

/// A change by the owner that proposes what is stored already is refused with
/// `InvalidParameter`, and the store holds afterwards what it held before.
pub proof fn lemma_unchanged_value_is_refused<M>(
    before: ConfigurationView,
    msg: ExecuteMsg,
    after: Option<ConfigurationView>,
    r: Result<Response<M>, ContractError>,
    acknowledgment: ResponseView<M>,
)
    requires
        proposes_stored_value(before, msg),
        is_commit_of(
            spec_handle_execute(Some(before), true, msg),
            Some(before),
            after,
            r,
            acknowledgment,
        ),
    ensures
        r matches Err(ContractError::InvalidParameter { .. }),
        after == Some(before),
{
}

/// A change by anyone but the owner is refused with `Unauthorized`, whatever
/// it proposes and whatever is stored, and the store holds afterwards what it
/// held before.
pub proof fn lemma_non_owner_is_unauthorized<M>(
    before: Option<ConfigurationView>,
    msg: ExecuteMsg,
    after: Option<ConfigurationView>,
    r: Result<Response<M>, ContractError>,
    acknowledgment: ResponseView<M>,
)
    requires
        is_commit_of(spec_handle_execute(before, false, msg), before, after, r, acknowledgment),
    ensures
        r == Err::<Response<M>, ContractError>(ContractError::Unauthorized),
        after == before,
{
}

/// A message whose start of the cycle is no real date and time does not
/// initialize: it is refused with `InvalidParameter`.
pub proof fn lemma_unreal_start_does_not_initialize(msg: InstantiateMsg)
    requires
        !msg.cycle_start_time.is_valid(),
    ensures
        spec_instantiate(msg) matches Err(ContractError::InvalidParameter { .. }),
{
}

/// A change to a start of the cycle that is no real date and time is refused:
/// with `InvalidParameter` where the owner of an initialized time gate asks for
/// it, and in every case the store holds afterwards what it held before.
pub proof fn lemma_unreal_start_is_refused<M>(
    before: Option<ConfigurationView>,
    sender_is_owner: bool,
    msg: ExecuteMsg,
    after: Option<ConfigurationView>,
    r: Result<Response<M>, ContractError>,
    acknowledgment: ResponseView<M>,
)
    requires
        proposes_unreal_start(msg),
        is_commit_of(
            spec_handle_execute(before, sender_is_owner, msg),
            before,
            after,
            r,
            acknowledgment,
        ),
    ensures
        r is Err,
        after == before,
        sender_is_owner && before is Some ==> r matches Err(
            ContractError::InvalidParameter { .. },
        ),
{
}

/// Whatever is stored is well formed: initialization stores only a
/// well-formed configuration, and a change turns a well-formed configuration
/// into a well-formed one. In particular no start of the cycle that is no real
/// date and time, no empty list and no interval of zero is ever stored.
pub proof fn lemma_stored_configuration_is_well_formed(
    before: Option<ConfigurationView>,
    sender_is_owner: bool,
    init: InstantiateMsg,
    msg: ExecuteMsg,
)
    requires
        wf_state(before),
    ensures
        spec_instantiate(init) matches Ok(config) ==> config.wf(),
        spec_handle_execute(before, sender_is_owner, msg) matches Ok(config) ==> config.wf(),
{
}

/// After a change of the destinations has succeeded, reading them gives the
/// proposed list back: the same destinations in the same order.
pub proof fn lemma_gate_addresses_round_trip<M>(
    before: Option<ConfigurationView>,
    sender_is_owner: bool,
    new_gate_addresses: Seq<Seq<char>>,
    after: Option<ConfigurationView>,
    r: Result<Response<M>, ContractError>,
    acknowledgment: ResponseView<M>,
    read: Result<Vec<String>, ContractError>,
)
    requires
        is_commit_of(
            spec_update_gate_addresses(before, sender_is_owner, new_gate_addresses),
            before,
            after,
            r,
            acknowledgment,
        ),
        r is Ok,
        is_gate_addresses_of(read, after),
    ensures
        read matches Ok(list) && list.deep_view() == new_gate_addresses,
{
}

/// What is active is a function of the store and the instant: two answers
/// that both meet the contract of `get_current_ado_path` on the same store and
/// instant name the same destination or give the same error.
pub proof fn lemma_current_ado_path_is_deterministic(
    state: Option<ConfigurationView>,
    current_instant: u64,
    first: Result<String, ContractError>,
    second: Result<String, ContractError>,
)
    requires
        is_current_ado_path_of(first, state, current_instant),
        is_current_ado_path_of(second, state, current_instant),
    ensures
        match first {
            Ok(path) => second matches Ok(other) && other@ == path@,
            Err(e) => second == Err::<String, ContractError>(e),
        },
{
}

/// Before the start of the cycle no destination is active: the answer is
/// `CycleNotStarted`.
pub proof fn lemma_no_path_before_cycle_start(
    config: ConfigurationView,
    cycle_start_instant: u64,
    current_instant: u64,
)
    requires
        config.cycle_start_time.spec_epoch_nanos() == Ok::<u64, ContractError>(
            cycle_start_instant,
        ),
        current_instant < cycle_start_instant,
    ensures
        spec_current_ado_path(Some(config), current_instant) == Err::<
            Seq<char>,
            ContractError,
        >(ContractError::CycleNotStarted),
{
}

/// From the start of the cycle on, a well-formed configuration whose interval
/// fits in nanoseconds always has an active destination, and it is one of the
/// configured ones.
pub proof fn lemma_active_path_is_a_destination(
    config: ConfigurationView,
    cycle_start_instant: u64,
    current_instant: u64,
)
    requires
        config.wf(),
        config.cycle_start_time.spec_epoch_nanos() == Ok::<u64, ContractError>(
            cycle_start_instant,
        ),
        cycle_start_instant <= current_instant,
        config.time_interval * NANOS_PER_SECOND <= u64::MAX,
    ensures
        spec_current_ado_path(Some(config), current_instant) matches Ok(path)
            && config.gate_addresses.contains(path),
{
    lemma_started_cycle_selects_a_slot(
        current_instant as int,
        cycle_start_instant as int,
        config.time_interval as int,
        config.gate_addresses.len() as int,
    );
}

} // verus!
