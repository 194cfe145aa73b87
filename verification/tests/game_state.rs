use albion_network_lib::albion::building_state::{BuildingAction, BuildingState, Repair};
use albion_network_lib::albion::chat_state::ChatState;
use albion_network_lib::albion::codes::{
    parse_event_code, parse_operation_code, CodeTable, EventCode, OperationCode,
};
use albion_network_lib::albion::payloads::{
    ActionOnBuildingCancel, ActionOnBuildingStart, AuctionCreateOrder, CreateOrderKind,
    RepairBuildingInfo,
};
use albion_network_lib::models::ChatChannel;
use albion_network_lib::packet::{ParamValue, RawParameters};

fn params(entries: &[(u8, i64)]) -> RawParameters {
    let mut params = RawParameters::empty();
    for (key, value) in entries {
        params.insert(*key, ParamValue::integer(*value));
    }
    params
}

fn repair_start(building_id: i64) -> RawParameters {
    let mut p = params(&[(0, 1_000), (1, building_id), (2, 3), (4, 250)]);
    p.insert(
        5,
        ParamValue::Array(vec![ParamValue::integer(7), ParamValue::integer(8)]),
    );
    p
}

#[test]
fn repair_started_on_the_shown_building_is_completed_by_its_finish() {
    let mut state = BuildingState::new();
    state.mark_repair_building(RepairBuildingInfo::from_params(&params(&[(0, 42)])).unwrap());

    state.begin_action_at(&repair_start(42), 99);

    let finished = state.finish_action(&params(&[(1, 5), (2, 42)]));
    assert_eq!(
        finished,
        Some(BuildingAction::Repair(Repair {
            building_id: 42,
            started_at: 1_000,
            finished_at: 0,
            num_items: 3,
            cost: 250,
            item_ids: vec![7, 8],
        }))
    );

    assert_eq!(state.finish_action(&params(&[(1, 5), (2, 43)])), None);
    assert_eq!(state.finish_action(&params(&[(1, 5)])), None);

    state.cancel_action();
    assert_eq!(state.finish_action(&params(&[(1, 5), (2, 42)])), None);
}

#[test]
fn repair_on_another_building_is_not_tracked() {
    let mut state = BuildingState::new();
    state.mark_repair_building(RepairBuildingInfo { building_id: 42 });

    state.begin_action_at(&repair_start(41), 99);

    assert_eq!(state.active_building, Some(41));
    assert_eq!(state.active_action, None);
    assert_eq!(state.finish_action(&params(&[(2, 42)])), None);
}

#[test]
fn repair_start_needs_its_time_and_converts_ticks() {
    let mut state = BuildingState::new();
    state.mark_repair_building(RepairBuildingInfo { building_id: 42 });
    let mut start = repair_start(42);
    start.insert(0, ParamValue::text("not a time"));

    state.begin_action_at(&start, 99);

    assert_eq!(state.active_action, None);
    assert_eq!(state.active_building, None);

    let start = params(&[(0, 638532000000000000), (1, 42), (2, 1), (4, 10)]);
    state.begin_action_at(&start, 99);
    let Some(BuildingAction::Repair(repair)) = state.active_action.clone() else {
        panic!("expected a repair");
    };
    assert_eq!(repair.started_at, 1_717_603_200_000);
    assert!(repair.item_ids.is_empty());
}

#[test]
fn building_payloads_need_their_fields() {
    assert_eq!(
        ActionOnBuildingStart::from_params(&params(&[(0, 3), (1, 4)])),
        Some(ActionOnBuildingStart { timestamp: 3, building_id: 4 })
    );
    assert_eq!(ActionOnBuildingStart::from_params(&params(&[(1, 4)])), None);
    assert_eq!(
        ActionOnBuildingCancel::from_params(&params(&[(1, 3), (2, 4)])),
        Some(ActionOnBuildingCancel { timestamp: 3, building_id: 4 })
    );
    assert_eq!(RepairBuildingInfo::from_params(&RawParameters::empty()), None);
}

#[test]
fn chat_channels_are_joined_and_left() {
    let mut chat = ChatState::new();
    chat.join_channel(1, 24);
    chat.join_channel(2, 29);
    chat.join_channel(3, 5);

    assert_eq!(chat.channel_type(1), Some(ChatChannel::Guild));
    assert_eq!(chat.channel_type(2), Some(ChatChannel::Faction));
    assert_eq!(chat.channel_type(3), Some(ChatChannel::Say));
    assert_eq!(chat.len(), 3);

    chat.join_channel(1, 29);
    assert_eq!(chat.channel_type(1), Some(ChatChannel::Faction));
    assert_eq!(chat.len(), 3);

    chat.leave_channel(1);
    assert_eq!(chat.channel_type(1), None);
    assert_eq!(chat.channel_type(2), Some(ChatChannel::Faction));
    assert_eq!(chat.len(), 2);

    chat.leave_channel(1);
    assert_eq!(chat.len(), 2);

    chat.clear();
    assert!(chat.is_empty());
}

#[test]
fn chat_channel_names() {
    assert_eq!(ChatChannel::Say.display_name(), "Local");
    assert_eq!(ChatChannel::Guild.display_name(), "Guild");
    assert_eq!(ChatChannel::Faction.display_name(), "Faction");
    assert_eq!(ChatChannel::from_i64(1856), ChatChannel::Faction);
    assert_eq!(ChatChannel::from_i64(3517), ChatChannel::Guild);
    assert_eq!(ChatChannel::from_i64(29), ChatChannel::Say);
}

fn table() -> CodeTable {
    CodeTable::new(
        vec![(2, OperationCode::Join), (80, OperationCode::AuctionBuyOffer)],
        vec![(63, EventCode::ChatMessage), (2, EventCode::Move)],
    )
}

#[test]
fn operation_codes_are_read_from_parameter_253() {
    let table = table();

    assert_eq!(
        parse_operation_code(&table, &params(&[(253, 2)])).unwrap(),
        OperationCode::Join
    );
    assert_eq!(
        parse_operation_code(&table, &params(&[(253, 65536 + 80)])).unwrap(),
        OperationCode::AuctionBuyOffer
    );

    let missing = parse_operation_code(&table, &RawParameters::empty()).unwrap_err();
    assert_eq!(missing.raw_code, None);
    assert_eq!(missing.reason, "missing_operation_code");
    assert_eq!(missing.message, "Operation code parameter 253 is missing");

    let unknown = parse_operation_code(&table, &params(&[(253, 65535)])).unwrap_err();
    assert_eq!(unknown.raw_code, Some(-1));
    assert_eq!(unknown.reason, "unknown_operation_code");
    assert_eq!(unknown.message, "Unknown operation code in parameter 253: -1");
}

#[test]
fn event_codes_are_read_from_parameter_252_with_the_shifted_form() {
    let table = table();

    assert_eq!(
        parse_event_code(&table, &params(&[(252, 63)])).unwrap(),
        EventCode::ChatMessage
    );
    assert_eq!(
        parse_event_code(&table, &params(&[(252, 63 * 16 + 1)])).unwrap(),
        EventCode::ChatMessage
    );

    let unknown = parse_event_code(&table, &params(&[(252, 63 * 16 + 2)])).unwrap_err();
    assert_eq!(unknown.raw_code, Some(1010));
    assert_eq!(unknown.reason, "unknown_event_code");
    assert_eq!(unknown.message, "Unknown event code in parameter 252: 1010");

    let missing = parse_event_code(&table, &RawParameters::empty()).unwrap_err();
    assert_eq!(missing.reason, "missing_event_code");
    assert_eq!(missing.message, "Event code parameter 252 is missing");
}

#[test]
fn code_table_lookups() {
    let table = table();

    assert_eq!(table.operation(80), Some(OperationCode::AuctionBuyOffer));
    assert_eq!(table.operation(81), None);
    assert_eq!(table.event(2), Some(EventCode::Move));
    assert_eq!(table.event_number(EventCode::Move), Some(2));
    assert_eq!(table.event_number(EventCode::LeftChatChannel), None);
    assert_eq!(OperationCode::AuctionBuyOffer.name(), "AuctionBuyOffer");
    assert_eq!(EventCode::ChatMessage.name(), "ChatMessage");
}

#[test]
fn created_orders_carry_their_setup_fee() {
    let buy = AuctionCreateOrder::buy_order_from_params(&params(&[
        (0, 3008),
        (3, 4),
        (4, 555),
        (5, 1_000_000),
    ]));
    assert_eq!(
        buy,
        AuctionCreateOrder {
            kind: CreateOrderKind::Buy,
            market_id: 3008,
            item_id: 555,
            amount: 4,
            silver_total: 1_000_000,
            silver_per_unit: 250_000,
            expiry: None,
            setup_fee: 25_000,
        }
    );

    let sell = AuctionCreateOrder::sell_order_from_params(&params(&[(0, 7), (2, 99), (3, 1_999), (4, 5)]));
    assert_eq!(sell.kind, CreateOrderKind::Sell);
    assert_eq!(sell.amount, 1);
    assert_eq!(sell.silver_per_unit, 1_999);
    assert_eq!(sell.expiry, Some(99));
    assert_eq!(sell.setup_fee, 49);

    let empty = AuctionCreateOrder::buy_order_from_params(&RawParameters::empty());
    assert_eq!(empty.silver_per_unit, 0);
    assert_eq!(empty.setup_fee, 0);
}
