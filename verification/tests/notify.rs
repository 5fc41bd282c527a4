use discord_watchdog::config::ServerConfig;
use discord_watchdog::data::{AppData, ResourceStatus, ServerUsedMessages};
use discord_watchdog::notify::{
    notify_status_change, plan_delivery, update_embed, Delivery, EmbedStage, Reply, SkipReason,
    Stage, Step,
};
use std::collections::BTreeMap;

fn server(channel: Option<u64>, role: Option<u64>, up: &str, down: &str) -> ServerConfig {
    ServerConfig {
        name: "guild".to_string(),
        channel,
        role_to_notify: role,
        up_message: up.to_string(),
        down_message: down.to_string(),
    }
}

fn embed_sends(mut delivery: Delivery, replies: &[Reply], used: &mut BTreeMap<u64, ServerUsedMessages>) -> (Delivery, usize) {
    let mut sends = 0;
    for reply in replies {
        if let Step::SendEmbed { .. } = delivery.step() {
            sends += 1;
        }
        delivery = delivery.advance(*reply, used);
    }
    (delivery, sends)
}

#[test]
fn without_a_stored_message_one_new_message_is_created_and_stored() {
    let mut used = BTreeMap::new();
    let first = update_embed(9, &mut used);
    assert_eq!(first, EmbedStage::SendingNew);
    assert_eq!(used.get(&9), Some(&ServerUsedMessages::new(None)));
    let end = first.advance(9, Reply::Created(77), &mut used);
    assert_eq!(end, EmbedStage::Replaced { message: 77 });
    assert!(end.is_final());
    assert_eq!(used.get(&9), Some(&ServerUsedMessages::new(Some(77))));
    assert_eq!(used.len(), 1);
}

#[test]
fn a_stored_message_that_cannot_be_fetched_is_replaced_all_the_same() {
    let mut used = BTreeMap::new();
    used.insert(9, ServerUsedMessages::new(Some(5)));
    let first = update_embed(9, &mut used);
    assert_eq!(first, EmbedStage::FetchingOld { message: 5 });
    let second = first.advance(9, Reply::Failed, &mut used);
    assert_eq!(second, EmbedStage::SendingNew);
    assert_eq!(used.get(&9), Some(&ServerUsedMessages::new(Some(5))));
    let end = second.advance(9, Reply::Created(6), &mut used);
    assert_eq!(end, EmbedStage::Replaced { message: 6 });
    assert_eq!(used.get(&9), Some(&ServerUsedMessages::new(Some(6))));
}

#[test]
fn a_stored_message_is_fetched_deleted_and_replaced() {
    let mut used = BTreeMap::new();
    used.insert(1, ServerUsedMessages::new(Some(500)));
    used.insert(2, ServerUsedMessages::new(Some(600)));
    let mut stage = update_embed(1, &mut used);
    assert_eq!(stage, EmbedStage::FetchingOld { message: 500 });
    stage = stage.advance(1, Reply::Done, &mut used);
    assert_eq!(stage, EmbedStage::DeletingOld { message: 500 });
    stage = stage.advance(1, Reply::Done, &mut used);
    assert_eq!(stage, EmbedStage::SendingNew);
    assert_eq!(used.get(&1), Some(&ServerUsedMessages::new(Some(500))));
    stage = stage.advance(1, Reply::Created(501), &mut used);
    assert_eq!(stage, EmbedStage::Replaced { message: 501 });
    assert_eq!(used.get(&1), Some(&ServerUsedMessages::new(Some(501))));
    assert_eq!(used.get(&2), Some(&ServerUsedMessages::new(Some(600))));
}

#[test]
fn a_failed_deletion_ends_the_cycle_and_keeps_the_stored_message() {
    let mut used = BTreeMap::new();
    used.insert(1, ServerUsedMessages::new(Some(500)));
    let mut stage = update_embed(1, &mut used);
    stage = stage.advance(1, Reply::Done, &mut used);
    stage = stage.advance(1, Reply::Failed, &mut used);
    assert_eq!(stage, EmbedStage::Kept);
    assert!(stage.is_final());
    assert_eq!(used.get(&1), Some(&ServerUsedMessages::new(Some(500))));
    assert_eq!(stage.advance(1, Reply::Created(3), &mut used), EmbedStage::Kept);
    assert_eq!(used.get(&1), Some(&ServerUsedMessages::new(Some(500))));
}

#[test]
fn a_failed_send_keeps_the_stored_message() {
    let mut used = BTreeMap::new();
    used.insert(1, ServerUsedMessages::new(Some(500)));
    let mut stage = update_embed(1, &mut used);
    stage = stage.advance(1, Reply::Done, &mut used);
    stage = stage.advance(1, Reply::Done, &mut used);
    stage = stage.advance(1, Reply::Failed, &mut used);
    assert_eq!(stage, EmbedStage::SendFailed);
    assert_eq!(used.get(&1), Some(&ServerUsedMessages::new(Some(500))));
    let mut fresh = BTreeMap::new();
    let stage = update_embed(4, &mut fresh).advance(4, Reply::Done, &mut fresh);
    assert_eq!(stage, EmbedStage::SendFailed);
    assert_eq!(fresh.get(&4), Some(&ServerUsedMessages::new(None)));
}

#[test]
fn stages_that_await_a_call_are_not_final() {
    assert!(!EmbedStage::FetchingOld { message: 1 }.is_final());
    assert!(!EmbedStage::DeletingOld { message: 1 }.is_final());
    assert!(!EmbedStage::SendingNew.is_final());
    assert!(EmbedStage::SendFailed.is_final());
}

#[test]
fn down_to_up_announces_with_the_up_message() {
    let config = server(Some(11), Some(42), "%%RESOURCE%% is back, %%ROLE%%!", "gone");
    let delivery = plan_delivery(3, &config, ResourceStatus::Down, ResourceStatus::Up, "API");
    assert_eq!(delivery.server_id, 3);
    assert_eq!(
        delivery.stage,
        Stage::FetchingChannel {
            channel: 11,
            announcement: Some("API is back, <@&42>!".to_string())
        }
    );
    assert_eq!(delivery.step(), Step::FetchChannel { channel: 11 });
    let mut used = BTreeMap::new();
    let delivery = delivery.advance(Reply::Done, &mut used);
    assert_eq!(
        delivery.step(),
        Step::SendText { channel: 11, content: "API is back, <@&42>!".to_string() }
    );
    assert!(used.is_empty());
    let delivery = delivery.advance(Reply::Created(1000), &mut used);
    assert_eq!(delivery.step(), Step::SendEmbed { channel: 11 });
    let delivery = delivery.advance(Reply::Created(1001), &mut used);
    assert_eq!(delivery.step(), Step::Finished);
    assert_eq!(
        delivery.stage,
        Stage::Embed { channel: 11, stage: EmbedStage::Replaced { message: 1001 } }
    );
    assert_eq!(used.get(&3), Some(&ServerUsedMessages::new(Some(1001))));
}

#[test]
fn up_to_down_announces_with_the_down_message() {
    let config = server(Some(11), None, "up", "%%RESOURCE%% fell, %%ROLE%%");
    let delivery = plan_delivery(3, &config, ResourceStatus::Up, ResourceStatus::Down, "API");
    assert_eq!(
        delivery.stage,
        Stage::FetchingChannel { channel: 11, announcement: Some("API fell, people".to_string()) }
    );
}

#[test]
fn transitions_with_an_unknown_side_are_not_announced() {
    let config = server(Some(11), Some(1), "up", "down");
    for (old, new) in [
        (ResourceStatus::Up, ResourceStatus::Unknown),
        (ResourceStatus::Down, ResourceStatus::Unknown),
        (ResourceStatus::Unknown, ResourceStatus::Up),
        (ResourceStatus::Unknown, ResourceStatus::Down),
    ] {
        let delivery = plan_delivery(3, &config, old, new, "API");
        assert_eq!(delivery.stage, Stage::FetchingChannel { channel: 11, announcement: None });
        let mut used = BTreeMap::new();
        used.insert(3, ServerUsedMessages::new(Some(70)));
        let delivery = delivery.advance(Reply::Done, &mut used);
        assert_eq!(delivery.step(), Step::FetchMessage { channel: 11, message: 70 });
        let delivery = delivery.advance(Reply::Done, &mut used);
        assert_eq!(delivery.step(), Step::DeleteMessage { channel: 11, message: 70 });
    }
}

#[test]
fn a_destination_without_a_channel_is_skipped() {
    let config = server(None, Some(1), "up", "down");
    let delivery = plan_delivery(3, &config, ResourceStatus::Up, ResourceStatus::Down, "API");
    assert_eq!(delivery.stage, Stage::Skipped(SkipReason::NoChannel));
    assert_eq!(delivery.step(), Step::Finished);
    let mut used = BTreeMap::new();
    let delivery = delivery.advance(Reply::Created(1), &mut used);
    assert_eq!(delivery.stage, Stage::Skipped(SkipReason::NoChannel));
    assert!(used.is_empty());
}

#[test]
fn a_channel_that_cannot_be_fetched_skips_the_destination() {
    let config = server(Some(11), Some(1), "up", "down");
    let delivery = plan_delivery(3, &config, ResourceStatus::Up, ResourceStatus::Down, "API");
    let mut used = BTreeMap::new();
    used.insert(3, ServerUsedMessages::new(Some(70)));
    let delivery = delivery.advance(Reply::Failed, &mut used);
    assert_eq!(delivery.stage, Stage::Skipped(SkipReason::ChannelUnavailable));
    assert_eq!(delivery.step(), Step::Finished);
    assert_eq!(used.get(&3), Some(&ServerUsedMessages::new(Some(70))));
}

#[test]
fn a_failed_announcement_skips_the_reconciliation() {
    let config = server(Some(11), Some(1), "up", "down");
    let delivery = plan_delivery(3, &config, ResourceStatus::Up, ResourceStatus::Down, "API");
    let mut used = BTreeMap::new();
    used.insert(3, ServerUsedMessages::new(Some(70)));
    let delivery = delivery.advance(Reply::Done, &mut used);
    let delivery = delivery.advance(Reply::Failed, &mut used);
    assert_eq!(delivery.stage, Stage::Skipped(SkipReason::AnnouncementFailed));
    assert_eq!(delivery.step(), Step::Finished);
    assert_eq!(used.get(&3), Some(&ServerUsedMessages::new(Some(70))));
}

#[test]
fn exactly_one_embed_is_sent_whatever_follows() {
    let config = server(Some(11), None, "up", "down");
    let delivery = plan_delivery(3, &config, ResourceStatus::Unknown, ResourceStatus::Up, "API");
    let mut used = BTreeMap::new();
    let replies = [
        Reply::Done,
        Reply::Created(90),
        Reply::Created(91),
        Reply::Created(92),
        Reply::Failed,
    ];
    let (delivery, sends) = embed_sends(delivery, &replies, &mut used);
    assert_eq!(sends, 1);
    assert_eq!(
        delivery.stage,
        Stage::Embed { channel: 11, stage: EmbedStage::Replaced { message: 90 } }
    );
    assert_eq!(used.get(&3), Some(&ServerUsedMessages::new(Some(90))));
}

#[test]
fn the_plan_visits_every_destination_once_in_ascending_order() {
    let mut data = AppData::default();
    data.status = ResourceStatus::Up;
    data.last_status_change = 1234;
    data.config.ping_config.resource_name = "API".to_string();
    data.config.ping_config.resource_addr = "api.example".to_string();
    data.config.server_configs.insert(30, server(Some(300), Some(42), "%%RESOURCE%% is back, %%ROLE%%!", "d"));
    data.config.server_configs.insert(10, server(None, None, "u", "d"));
    data.config.server_configs.insert(20, server(Some(200), None, "%%ROLE%%: %%RESOURCE%%", "d"));
    let dispatch = notify_status_change(ResourceStatus::Down, ResourceStatus::Up, &data);
    assert_eq!(dispatch.embed.title, "API is online!");
    assert_eq!(dispatch.embed.fields[0].value, "<t:1234:R>");
    assert_eq!(dispatch.embed.fields[1].value, "api.example");
    let ids: Vec<u64> = dispatch.deliveries.iter().map(|d| d.server_id).collect();
    assert_eq!(ids, vec![10, 20, 30]);
    assert_eq!(dispatch.deliveries[0].stage, Stage::Skipped(SkipReason::NoChannel));
    assert_eq!(
        dispatch.deliveries[1].stage,
        Stage::FetchingChannel { channel: 200, announcement: Some("people: API".to_string()) }
    );
    assert_eq!(
        dispatch.deliveries[2].stage,
        Stage::FetchingChannel {
            channel: 300,
            announcement: Some("API is back, <@&42>!".to_string())
        }
    );
}

#[test]
fn the_plan_is_empty_without_destinations() {
    let data = AppData::default();
    let dispatch = notify_status_change(ResourceStatus::Unknown, ResourceStatus::Down, &data);
    assert!(dispatch.deliveries.is_empty());
    assert_eq!(dispatch.embed.title, "BYOND is offline!");
}

#[test]
fn a_failure_at_one_destination_leaves_the_others_alone() {
    let mut data = AppData::default();
    data.config.server_configs.insert(1, server(Some(100), None, "u", "d"));
    data.config.server_configs.insert(2, server(Some(200), None, "u", "d"));
    data.used_messages.insert(1, ServerUsedMessages::new(Some(10)));
    data.used_messages.insert(2, ServerUsedMessages::new(Some(20)));
    let dispatch = notify_status_change(ResourceStatus::Up, ResourceStatus::Unknown, &data);
    let mut used = data.used_messages.clone();
    let mut deliveries = dispatch.deliveries.into_iter();
    let first = deliveries.next().unwrap();
    let (first, _) = embed_sends(first, &[Reply::Failed], &mut used);
    assert_eq!(first.stage, Stage::Skipped(SkipReason::ChannelUnavailable));
    let second = deliveries.next().unwrap();
    let (second, sends) = embed_sends(
        second,
        &[Reply::Done, Reply::Done, Reply::Done, Reply::Created(21)],
        &mut used,
    );
    assert_eq!(sends, 1);
    assert_eq!(second.stage, Stage::Embed { channel: 200, stage: EmbedStage::Replaced { message: 21 } });
    assert_eq!(used.get(&1), Some(&ServerUsedMessages::new(Some(10))));
    assert_eq!(used.get(&2), Some(&ServerUsedMessages::new(Some(21))));
}
