use std::sync::atomic::{AtomicBool, Ordering};
use std::sync::Arc;
use vcontrold_mqttd::mqtt::client::{on_event, BrokerEvent};
use vcontrold_mqttd::polling::{batch_commands, Scheduler, Tick, Ticker};

#[test]
fn test_batch_commands_single_batch() {
    let commands: Vec<String> = vec!["cmd1".into(), "cmd2".into(), "cmd3".into()];
    let batches = batch_commands(&commands, 100);
    assert_eq!(batches.len(), 1);
    assert_eq!(batches[0], commands);
}

#[test]
fn test_batch_commands_multiple_batches() {
    let commands: Vec<String> = vec![
        "getTempWWObenIst".into(),
        "getTempWWsoll".into(),
        "getTempA".into(),
        "getTempB".into(),
    ];
    // "getTempWWObenIst,getTempWWsoll" has 30 characters; with "getTempA" it
    // has 39, which fits; with "getTempB" it would have 48, which does not.
    let batches = batch_commands(&commands, 40);
    assert_eq!(batches.len(), 2);
    assert_eq!(
        batches[0],
        vec!["getTempWWObenIst", "getTempWWsoll", "getTempA"]
    );
    assert_eq!(batches[1], vec!["getTempB"]);
}

#[test]
fn test_batch_commands_empty() {
    let commands: Vec<String> = vec![];
    let batches = batch_commands(&commands, 100);
    assert!(batches.is_empty());
}

#[test]
fn test_batch_commands_single_long_command() {
    // A command longer than the budget still gets a batch of its own.
    let commands: Vec<String> = vec!["veryLongCommandName".into()];
    let batches = batch_commands(&commands, 5);
    assert_eq!(batches.len(), 1);
    assert_eq!(batches[0], vec!["veryLongCommandName"]);
}

#[test]
fn test_interval_skips_missed_ticks() {
    let period: u64 = 10_000;
    let mut ticker = Ticker::new(period, 0);

    // The first tick fires at once.
    assert_eq!(ticker.wait_ms(0), 0);
    assert!(ticker.fire(0));

    // A stall of five periods without a tick.
    let now = period * 5;

    // After the stall exactly one tick is ready.
    assert_eq!(ticker.wait_ms(now), 0);
    assert!(ticker.fire(now));

    // The next tick is not there at once: it takes another full period.
    assert!(!ticker.fire(now));
    assert!(!ticker.fire(now + period / 2));
    assert_eq!(ticker.wait_ms(now + period / 2), period / 2);
    assert!(ticker.fire(now + period));
}

#[test]
fn test_mqtt_connected_flag_state_transitions() {
    let topics: Vec<String> = vec![];
    let apply = |flag: &AtomicBool, event: BrokerEvent| {
        if let Some(value) = on_event(event, &topics, false).connected {
            flag.store(value, Ordering::Relaxed);
        }
    };
    let connected = Arc::new(AtomicBool::new(false));

    // At the start the broker is not connected.
    assert!(!connected.load(Ordering::Relaxed));

    // The broker accepts the connection.
    apply(&connected, BrokerEvent::ConnAck);
    assert!(connected.load(Ordering::Relaxed));

    // The broker disconnects.
    apply(&connected, BrokerEvent::Disconnect);
    assert!(!connected.load(Ordering::Relaxed));

    // The client reconnects.
    apply(&connected, BrokerEvent::ConnAck);
    assert!(connected.load(Ordering::Relaxed));

    // The event loop fails.
    apply(&connected, BrokerEvent::Error);
    assert!(!connected.load(Ordering::Relaxed));
}

#[test]
fn batches_respect_the_budget_and_cover_the_commands() {
    let commands: Vec<String> = [
        "getTempA", "getTempB", "getTempWWObenIst", "x", "", "getBetriebsart", "yy", "zzz",
    ]
    .iter()
    .map(|s| s.to_string())
    .collect();
    let longest = commands.iter().map(|c| c.chars().count()).max().unwrap();
    for max_length in longest..80 {
        let batches = batch_commands(&commands, max_length);
        let mut flat: Vec<String> = Vec::new();
        for batch in &batches {
            assert!(!batch.is_empty());
            assert!(batch.join(",").chars().count() <= max_length);
            flat.extend(batch.iter().cloned());
        }
        assert_eq!(flat, commands);
    }
}

#[test]
fn batches_are_as_full_as_they_can_be() {
    let commands: Vec<String> = ["aa", "bb", "cc", "dd", "ee"].iter().map(|s| s.to_string()).collect();
    // "aa,bb" has 5 characters, "aa,bb,cc" has 8.
    assert_eq!(
        batch_commands(&commands, 5),
        vec![vec!["aa", "bb"], vec!["cc", "dd"], vec!["ee"]]
    );
    assert_eq!(
        batch_commands(&commands, 7),
        vec![vec!["aa", "bb"], vec!["cc", "dd"], vec!["ee"]]
    );
    assert_eq!(
        batch_commands(&commands, 8),
        vec![vec!["aa", "bb", "cc"], vec!["dd", "ee"]]
    );
    assert_eq!(batch_commands(&commands, 14), vec![vec!["aa", "bb", "cc", "dd", "ee"]]);
}

#[test]
fn a_command_over_the_budget_stands_alone() {
    let commands: Vec<String> = ["a", "b", "muchTooLongForTheBudget", "c", "d"]
        .iter()
        .map(|s| s.to_string())
        .collect();
    let batches = batch_commands(&commands, 3);
    assert_eq!(
        batches,
        vec![vec!["a", "b"], vec!["muchTooLongForTheBudget"], vec!["c", "d"]]
    );
    // With no budget at all every command stands alone.
    let batches = batch_commands(&commands, 0);
    assert_eq!(batches.len(), commands.len());
    for (batch, command) in batches.iter().zip(commands.iter()) {
        assert_eq!(batch, &vec![command.clone()]);
    }
}

#[test]
fn the_budget_counts_characters() {
    let commands: Vec<String> = ["\u{e4}\u{f6}", "\u{fc}"].iter().map(|s| s.to_string()).collect();
    // Two characters, a comma and one character: four characters in all.
    assert_eq!(batch_commands(&commands, 4).len(), 1);
    assert_eq!(batch_commands(&commands, 3).len(), 2);
}

#[test]
fn scheduler_runs_only_while_connected() {
    let commands: Vec<String> = vec!["getTempA".into()];
    let mut scheduler = Scheduler::new(&commands, 512);
    assert_eq!(scheduler.batches(), &vec![vec!["getTempA".to_string()]]);

    assert_eq!(scheduler.on_tick(true), Tick::Run { resumed: false });
    assert_eq!(scheduler.on_tick(true), Tick::Run { resumed: false });

    // The broker goes away: the next four ticks run nothing, and only the
    // first of them announces it.
    assert_eq!(scheduler.on_tick(false), Tick::Skip { announce: true });
    for _ in 0..3 {
        assert_eq!(scheduler.on_tick(false), Tick::Skip { announce: false });
    }

    // The broker is back: the first tick runs exactly one cycle.
    assert_eq!(scheduler.on_tick(true), Tick::Run { resumed: true });
    assert_eq!(scheduler.on_tick(true), Tick::Run { resumed: false });
    assert_eq!(scheduler.batches().len(), 1);
}

#[test]
fn scheduler_that_starts_disconnected_announces_once() {
    let commands: Vec<String> = vec!["a".into(), "b".into()];
    let mut scheduler = Scheduler::new(&commands, 1);
    assert_eq!(scheduler.batches().len(), 2);
    assert_eq!(scheduler.on_tick(false), Tick::Skip { announce: true });
    assert_eq!(scheduler.on_tick(false), Tick::Skip { announce: false });
    assert_eq!(scheduler.on_tick(true), Tick::Run { resumed: true });
}

#[test]
fn ticker_keeps_its_beat() {
    let mut ticker = Ticker::new(60_000, 1_000);
    assert_eq!(ticker.wait_ms(0), 1_000);
    assert!(!ticker.fire(999));
    assert!(ticker.fire(1_000));
    assert_eq!(ticker.wait_ms(1_000), 60_000);
    // A tick taken late does not move the ticks after it.
    assert!(ticker.fire(61_250));
    assert_eq!(ticker.wait_ms(61_250), 59_750);
    // A stall of several periods skips the ticks in between.
    assert!(ticker.fire(300_999));
    assert_eq!(ticker.wait_ms(300_999), 1);
    assert!(ticker.fire(301_000));
    assert_eq!(ticker.wait_ms(301_000), 60_000);
}

#[test]
fn ticker_at_the_end_of_the_clock() {
    let mut ticker = Ticker::new(10, u64::MAX - 5);
    assert!(ticker.fire(u64::MAX - 5));
    assert_eq!(ticker.wait_ms(u64::MAX - 5), 5);
    assert!(!ticker.fire(u64::MAX - 1));
    assert!(ticker.fire(u64::MAX));
    assert_eq!(ticker.wait_ms(u64::MAX), 0);
    let mut ticker = Ticker::new(1, 7);
    assert!(ticker.fire(7));
    assert_eq!(ticker.wait_ms(7), 1);
}

#[test]
fn disconnect_gates_the_polling() {
    let topics: Vec<String> = vec![];
    let flag = AtomicBool::new(false);
    let apply = |event: BrokerEvent| {
        if let Some(value) = on_event(event, &topics, false).connected {
            flag.store(value, Ordering::Relaxed);
        }
    };
    let commands: Vec<String> = vec!["getTempA".into(), "getTempB".into()];
    let mut scheduler = Scheduler::new(&commands, 512);
    let mut cycles = 0;
    let mut tick = |scheduler: &mut Scheduler| {
        if let Tick::Run { .. } = scheduler.on_tick(flag.load(Ordering::Relaxed)) {
            cycles += 1;
        }
        cycles
    };

    apply(BrokerEvent::ConnAck);
    assert_eq!(tick(&mut scheduler), 1);

    // The broker disconnects in the middle of the run: the next four ticks
    // run nothing.
    apply(BrokerEvent::Disconnect);
    for _ in 0..4 {
        assert_eq!(tick(&mut scheduler), 1);
    }

    // On reconnect the first tick runs exactly one cycle.
    apply(BrokerEvent::ConnAck);
    assert_eq!(tick(&mut scheduler), 2);
}
