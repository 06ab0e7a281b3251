use std::time::{SystemTime, UNIX_EPOCH};
use telemetry_bridge::config::Config;
use telemetry_bridge::logging::{DeliveryFailure, Log, Logger};
use telemetry_bridge::metrics::{Metrics, Snapshot};
use telemetry_bridge::plugin::{Event, Plugin};

fn now() -> u64 {
    SystemTime::now().duration_since(UNIX_EPOCH).unwrap().as_secs()
}

fn config() -> Config {
    Config {
        prometheus_endpoint: "http://localhost:9090".to_string(),
        loki_endpoint: "http://localhost:3100/loki/api/v1/push".to_string(),
        bot_token: "not-a-real-token".to_string(),
        server_address: "mc.example.org:25565".to_string(),
        metrics_port: 3030,
    }
}

fn plugin() -> Plugin {
    Plugin::new(Metrics::new(), config())
}

fn join(username: &str) -> Event {
    Event::PlayerJoin { username: username.to_string() }
}

fn leave(username: &str) -> Event {
    Event::PlayerLeave { username: username.to_string() }
}

fn chat(username: &str, text: &str) -> Event {
    Event::ChatMessage { username: username.to_string(), text: text.to_string() }
}

#[test]
fn new_plugin_keeps_registry_and_configuration() {
    let mut metrics = Metrics::new();
    metrics.update(4, 5, 6);
    let plugin = Plugin::new(metrics, config());
    assert_eq!(plugin.metrics().snapshot(), Snapshot { player_count: 4, tps: 5, latency: 6 });
    assert_eq!(plugin.config().loki_endpoint, "http://localhost:3100/loki/api/v1/push");
    assert_eq!(plugin.config().metrics_port, 3030);
    assert_eq!(plugin.logger().endpoint(), "http://localhost:3100/loki/api/v1/push");
}

#[test]
fn join_counts_a_player_and_leaves_a_record() {
    let mut plugin = plugin();
    let record = plugin.apply(&join("alice"), 100);
    assert_eq!(record, Some(Log::stamped("player_join", "alice", None, 100)));
    assert_eq!(plugin.metrics().snapshot(), Snapshot { player_count: 1, tps: 0, latency: 0 });
}

#[test]
fn leave_discounts_a_player_and_leaves_a_record() {
    let mut plugin = plugin();
    plugin.apply(&join("alice"), 100);
    let record = plugin.apply(&leave("alice"), 101);
    assert_eq!(record, Some(Log::stamped("player_leave", "alice", None, 101)));
    assert_eq!(plugin.metrics().snapshot(), Snapshot { player_count: 0, tps: 0, latency: 0 });
}

#[test]
fn chat_message_leaves_exactly_one_record_and_no_trace_in_the_gauges() {
    let mut plugin = plugin();
    plugin.on_tick(20, 50);
    let before = now();
    let record = plugin.handle(&chat("alice", "hello"));
    let after = now();
    let log = record.expect("a chat message is logged");
    assert_eq!(log.event, "chat_message");
    assert_eq!(log.username, "alice");
    assert_eq!(log.message, Some("hello".to_string()));
    assert!(before <= log.timestamp && log.timestamp <= after);
    assert_eq!(plugin.metrics().snapshot(), Snapshot { player_count: 0, tps: 20, latency: 50 });
}

#[test]
fn tick_overwrites_both_samples_and_is_never_logged() {
    let mut plugin = plugin();
    let mut records = 0;
    for round in 0..100u64 {
        let tick = Event::Tick { tps: 20 - (round % 3) as i64, latency: 40 + round };
        if plugin.handle(&tick).is_some() {
            records += 1;
        }
        if plugin.apply(&tick, round).is_some() {
            records += 1;
        }
    }
    assert_eq!(records, 0);
    assert_eq!(plugin.metrics().snapshot(), Snapshot { player_count: 0, tps: 20, latency: 139 });
}

#[test]
fn tick_latency_beyond_the_gauge_reads_as_twos_complement() {
    let mut plugin = plugin();
    plugin.on_tick(-3, i64::MAX as u64);
    assert_eq!(plugin.metrics().snapshot(), Snapshot { player_count: 0, tps: -3, latency: i64::MAX });
    plugin.on_tick(0, i64::MAX as u64 + 1);
    assert_eq!(plugin.metrics().snapshot().latency, i64::MIN);
    plugin.on_tick(0, u64::MAX);
    assert_eq!(plugin.metrics().snapshot().latency, -1);
}

#[test]
fn callbacks_do_what_the_events_do() {
    let mut plugin = plugin();
    let before = now();
    let joined = plugin.on_player_join("alice");
    let also_joined = plugin.on_player_join("bob");
    let left = plugin.on_player_leave("alice");
    let said = plugin.on_chat_message("bob", "anyone here?");
    plugin.on_tick(19, 31);
    let after = now();
    assert_eq!(joined, Log::stamped("player_join", "alice", None, joined.timestamp));
    assert_eq!(also_joined, Log::stamped("player_join", "bob", None, also_joined.timestamp));
    assert_eq!(left, Log::stamped("player_leave", "alice", None, left.timestamp));
    assert_eq!(
        said,
        Log::stamped("chat_message", "bob", Some("anyone here?".to_string()), said.timestamp)
    );
    for log in [&joined, &also_joined, &left, &said] {
        assert!(before <= log.timestamp && log.timestamp <= after);
    }
    assert_eq!(plugin.metrics().snapshot(), Snapshot { player_count: 1, tps: 19, latency: 31 });
}

#[test]
fn leave_without_join_goes_below_zero() {
    let mut plugin = plugin();
    plugin.on_player_leave("ghost");
    assert_eq!(plugin.metrics().snapshot().player_count, -1);
}

#[test]
fn player_count_is_joins_minus_leaves_in_any_order() {
    let events = [join("a"), join("b"), leave("a"), chat("b", "hi"), join("c"), leave("c"), join("d")];
    let mut in_order = plugin();
    for event in events.iter() {
        in_order.apply(event, 0);
    }
    let mut reversed = plugin();
    for event in events.iter().rev() {
        reversed.apply(event, 0);
    }
    assert_eq!(in_order.metrics().snapshot().player_count, 2);
    assert_eq!(reversed.metrics().snapshot().player_count, 2);
}

#[test]
fn a_thousand_interleaved_events_reach_the_net_count() {
    let callers = 4u64;
    let per_caller = 250u64;
    let mut plugin = plugin();
    let mut joins = 0i64;
    let mut leaves = 0i64;
    let mut records = 0usize;
    for step in 0..per_caller {
        for caller in 0..callers {
            let name = format!("player-{}-{}", caller, step);
            let event = if (step * 7 + caller * 3) % 5 < 3 {
                joins += 1;
                join(&name)
            } else {
                leaves += 1;
                leave(&name)
            };
            if plugin.handle(&event).is_some() {
                records += 1;
            }
        }
    }
    assert_eq!(joins + leaves, 1000);
    assert_eq!(records, 1000);
    assert_eq!(plugin.metrics().snapshot().player_count, joins - leaves);
    assert_eq!(plugin.metrics().snapshot().player_count, 200);
}

#[test]
fn a_failed_delivery_does_not_disturb_the_events_that_follow() {
    let mut plugin = plugin();
    let logger = plugin.logger();
    let first = plugin.handle(&join("alice")).expect("a join is logged");
    let planned = logger.prepare(&first);
    assert_eq!(planned.endpoint, "http://localhost:3100/loki/api/v1/push");
    let unreachable = DeliveryFailure::Transport("connection refused".to_string());
    let line = logger.diagnostic(&unreachable);
    assert_eq!(
        line,
        "log delivery to http://localhost:3100/loki/api/v1/push failed: connection refused"
    );
    let rejected = Logger::judge(500).unwrap_err();
    assert_eq!(
        logger.diagnostic(&rejected),
        "log delivery to http://localhost:3100/loki/api/v1/push was answered with status 500"
    );
    let second = plugin.handle(&join("bob")).expect("a join is logged");
    assert_eq!(second.event, "player_join");
    assert_eq!(second.username, "bob");
    let third = plugin.apply(&chat("bob", "still here"), 9);
    assert_eq!(third, Some(Log::stamped("chat_message", "bob", Some("still here".to_string()), 9)));
    assert_eq!(plugin.metrics().snapshot().player_count, 2);
}

#[test]
fn exporter_sees_what_the_events_did() {
    let mut plugin = plugin();
    plugin.on_player_join("a");
    plugin.on_player_join("b");
    plugin.on_player_join("c");
    plugin.on_tick(20, 50);
    let text = plugin.metrics().render();
    assert!(text.contains("\nminecraft_player_count 3\n"));
    assert!(text.contains("\nminecraft_tps 20\n"));
    assert!(text.starts_with("# HELP minecraft_latency Bot latency\n# TYPE minecraft_latency gauge\nminecraft_latency 50\n"));
}
