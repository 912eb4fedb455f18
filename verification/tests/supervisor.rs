use vcontrold_mqttd::config::{Config, ConfigError};
use vcontrold_mqttd::error::{Error, MqttError, ProcessError, VcontroldError};
use vcontrold_mqttd::process::{
    arguments, config_path, is_running, monitor_process, wait_ready, ReadinessStep,
    DAEMON_PROGRAM, DEFAULT_CONFIG_PATH, READINESS_PROBE_INTERVAL_SECS, READINESS_TIMEOUT_SECS,
};
use vcontrold_mqttd::supervisor::{
    cleanup_order, exit_for, launch_plan, CleanupStep, Completion, Event, Phase, Step, Supervisor,
};

#[test]
fn defaults_are_as_documented() {
    let config = Config::with_defaults("broker".to_string(), "B".to_string());
    assert_eq!(config.mqtt.host, "broker");
    assert_eq!(config.mqtt.topic, "B");
    assert_eq!(config.mqtt.port, 1883);
    assert_eq!(config.mqtt.client_id_prefix, "vcontrold");
    assert_eq!(config.mqtt.timeout_secs, 10);
    assert!(config.mqtt.user.is_none());
    assert!(config.mqtt.password.is_none());
    assert!(config.mqtt.tls.is_none());
    assert!(!config.mqtt_subscribe);
    assert_eq!(config.interval_secs, 60);
    assert!(config.commands.is_empty());
    assert_eq!(config.max_length, 512);
    assert!(!config.debug);
    assert_eq!(config.usb_device, "/dev/vitocal");
}

#[test]
fn client_ids_are_made_of_their_parts() {
    let mut config = Config::with_defaults("broker".to_string(), "B".to_string());
    assert_eq!(
        config.publisher_client_id("heizung", 4242, 1700000000),
        "vcontrold-pub-heizung-4242-1700000000"
    );
    assert_eq!(config.subscriber_client_id("heizung"), "vcontrold-sub-heizung");
    config.mqtt.client_id_prefix = "bridge".to_string();
    assert_eq!(config.publisher_client_id("unknown", 0, 0), "bridge-pub-unknown-0-0");
    assert_eq!(
        config.publisher_client_id("h", u32::MAX, u64::MAX),
        "bridge-pub-h-4294967295-18446744073709551615"
    );
    assert_eq!(config.subscriber_client_id(""), "bridge-sub-");
}

#[test]
fn nothing_but_the_essentials_runs_by_default() {
    let config = Config::with_defaults("broker".to_string(), "B".to_string());
    let plan = launch_plan(&config);
    assert!(!plan.polling);
    assert!(!plan.subscriber);
    assert!(plan.subscribe_topics.is_empty());
    assert_eq!(plan.channel_capacity, None);
}

#[test]
fn polling_runs_where_commands_are_configured() {
    let mut config = Config::with_defaults("broker".to_string(), "B".to_string());
    config.commands = vec!["getTempA".to_string()];
    let plan = launch_plan(&config);
    assert!(plan.polling);
    assert!(!plan.subscriber);
    assert!(plan.subscribe_topics.is_empty());
}

#[test]
fn the_bridge_subscribes_to_the_request_topic_only() {
    let mut config = Config::with_defaults("broker".to_string(), "home/heating".to_string());
    config.mqtt_subscribe = true;
    let plan = launch_plan(&config);
    assert!(plan.subscriber);
    assert!(!plan.polling);
    assert_eq!(plan.subscribe_topics, vec!["home/heating/request"]);
    assert_eq!(plan.channel_capacity, Some(100));
}

#[test]
fn only_a_shutdown_signal_ends_the_bridge_cleanly() {
    let exit = exit_for(Completion::ShutdownSignal);
    assert_eq!(exit.code, 0);
    assert!(exit.error.is_none());
    for completion in [Completion::EventLoop, Completion::Scheduler, Completion::Subscriber] {
        let exit = exit_for(completion);
        assert_ne!(exit.code, 0);
        assert!(exit.error.is_none());
    }
    let exit = exit_for(Completion::ProcessMonitor(ProcessError::UnexpectedExit(Some(3))));
    assert_ne!(exit.code, 0);
    assert!(matches!(
        exit.error,
        Some(Error::Process(ProcessError::UnexpectedExit(Some(3))))
    ));
}

#[test]
fn cleanup_takes_the_daemon_down_first() {
    assert_eq!(
        cleanup_order(),
        [CleanupStep::KillChild, CleanupStep::DisconnectSession, CleanupStep::DropMqtt]
    );
}

#[test]
fn the_daemon_is_started_in_the_foreground() {
    assert_eq!(DAEMON_PROGRAM, "vcontrold");
    assert_eq!(DEFAULT_CONFIG_PATH, "/config/vcontrold.xml");
    assert_eq!(config_path(None), "/config/vcontrold.xml");
    assert_eq!(config_path(Some("/etc/vcontrold.xml")), "/etc/vcontrold.xml");
    assert_eq!(
        arguments("/config/vcontrold.xml", false),
        vec!["-n", "-x", "/config/vcontrold.xml"]
    );
    assert_eq!(
        arguments("/etc/v.xml", true),
        vec!["-n", "-x", "/etc/v.xml", "--verbose", "--debug"]
    );
}

#[test]
fn readiness_is_probed_every_second_for_thirty_seconds() {
    assert_eq!(READINESS_TIMEOUT_SECS, 30);
    assert_eq!(READINESS_PROBE_INTERVAL_SECS, 1);
    assert!(matches!(wait_ready(0, None), ReadinessStep::Probe));
    assert!(matches!(wait_ready(29, None), ReadinessStep::Probe));
    assert!(matches!(
        wait_ready(30, None),
        ReadinessStep::GiveUp(ProcessError::ReadinessTimeout(30))
    ));
    assert!(matches!(
        wait_ready(u64::MAX, None),
        ReadinessStep::GiveUp(ProcessError::ReadinessTimeout(30))
    ));
    assert!(matches!(wait_ready(3, Some(false)), ReadinessStep::Sleep(1)));
    assert!(matches!(wait_ready(3, Some(true)), ReadinessStep::Ready(3)));
    // A probe that succeeded counts even when the time is up.
    assert!(matches!(wait_ready(31, Some(true)), ReadinessStep::Ready(31)));
}

#[test]
fn readiness_wait_ends_after_thirty_probes() {
    let mut elapsed: u64 = 0;
    let mut probes = 0;
    let outcome = loop {
        match wait_ready(elapsed, None) {
            ReadinessStep::Probe => {
                probes += 1;
                match wait_ready(elapsed, Some(false)) {
                    ReadinessStep::Sleep(secs) => elapsed += secs,
                    other => panic!("unexpected: {:?}", other),
                }
            }
            other => break other,
        }
    };
    assert_eq!(probes, 30);
    assert!(matches!(outcome, ReadinessStep::GiveUp(ProcessError::ReadinessTimeout(30))));
}

#[test]
fn the_end_of_the_daemon_is_never_expected() {
    assert!(matches!(
        monitor_process(Ok(Some(0))),
        ProcessError::UnexpectedExit(Some(0))
    ));
    assert!(matches!(monitor_process(Ok(None)), ProcessError::UnexpectedExit(None)));
    assert!(matches!(
        monitor_process(Err("interrupted".to_string())),
        ProcessError::WaitFailed(ref msg) if msg == "interrupted"
    ));
}

#[test]
fn a_child_runs_until_it_has_exited() {
    assert!(is_running(Ok(None)));
    assert!(!is_running(Ok(Some(0))));
    assert!(!is_running(Ok(Some(1))));
    assert!(!is_running(Err("gone".to_string())));
}

#[test]
fn errors_convert_into_the_common_error() {
    assert!(matches!(
        Error::from(ConfigError::MissingRequired("MQTT_HOST")),
        Error::Config(ConfigError::MissingRequired("MQTT_HOST"))
    ));
    assert!(matches!(
        Error::from(ConfigError::InvalidValue("MQTT_PORT", "x".to_string())),
        Error::Config(ConfigError::InvalidValue("MQTT_PORT", ref v)) if v == "x"
    ));
    assert!(matches!(
        Error::from(VcontroldError::Timeout),
        Error::Vcontrold(VcontroldError::Timeout)
    ));
    assert!(matches!(
        Error::from(VcontroldError::Protocol("p".to_string())),
        Error::Vcontrold(VcontroldError::Protocol(_))
    ));
    assert!(matches!(
        Error::from(MqttError::Client("c".to_string())),
        Error::Mqtt(MqttError::Client(_))
    ));
    assert!(matches!(
        Error::from(MqttError::ConnectionFailed("c".to_string())),
        Error::Mqtt(MqttError::ConnectionFailed(_))
    ));
    assert!(matches!(
        Error::from(ProcessError::StartFailed("s".to_string())),
        Error::Process(ProcessError::StartFailed(_))
    ));
    assert!(matches!(
        Error::from(ProcessError::ConfigNotFound("/x".to_string())),
        Error::Process(ProcessError::ConfigNotFound(_))
    ));
    let io = std::io::Error::new(std::io::ErrorKind::Other, "io");
    assert!(matches!(Error::from(io), Error::Io(_)));
    let io = std::io::Error::new(std::io::ErrorKind::Other, "io");
    assert!(matches!(VcontroldError::from(io), VcontroldError::Io(_)));
}

#[test]
fn the_bridge_comes_up_in_order() {
    let mut config = Config::with_defaults("broker".to_string(), "B".to_string());
    config.commands = vec!["getTempA".to_string()];
    let mut supervisor = Supervisor::new(&config);
    assert_eq!(supervisor.phase(), Phase::Idle);
    assert!(supervisor.plan().polling);
    assert!(!supervisor.plan().subscriber);

    assert!(matches!(supervisor.next(Event::Start), Step::SpawnChild));
    assert_eq!(supervisor.phase(), Phase::Spawning);
    assert!(matches!(supervisor.next(Event::Spawned), Step::WaitReady));
    assert_eq!(supervisor.phase(), Phase::Probing);
    assert!(matches!(supervisor.next(Event::Ready), Step::Launch));
    assert_eq!(supervisor.phase(), Phase::Running);
    assert!(supervisor.plan().polling);
}

fn running() -> Supervisor {
    let config = Config::with_defaults("broker".to_string(), "B".to_string());
    let mut supervisor = Supervisor::new(&config);
    supervisor.next(Event::Start);
    supervisor.next(Event::Spawned);
    supervisor.next(Event::Ready);
    supervisor
}

#[test]
fn a_signal_takes_the_bridge_down_cleanly() {
    let mut supervisor = running();
    match supervisor.next(Event::Completed(Completion::ShutdownSignal)) {
        Step::Shutdown(exit) => {
            assert_eq!(exit.code, 0);
            assert!(exit.error.is_none());
        }
        other => panic!("unexpected: {:?}", other),
    }
    assert_eq!(supervisor.phase(), Phase::Stopped);
}

#[test]
fn the_first_task_to_end_takes_the_bridge_down() {
    for completion in [Completion::EventLoop, Completion::Scheduler, Completion::Subscriber] {
        let mut supervisor = running();
        match supervisor.next(Event::Completed(completion)) {
            Step::Shutdown(exit) => {
                assert_ne!(exit.code, 0);
                assert!(exit.error.is_none());
            }
            other => panic!("unexpected: {:?}", other),
        }
        assert_eq!(supervisor.phase(), Phase::Stopped);
    }
    let mut supervisor = running();
    let gone = Completion::ProcessMonitor(ProcessError::UnexpectedExit(None));
    match supervisor.next(Event::Completed(gone)) {
        Step::Shutdown(exit) => {
            assert_ne!(exit.code, 0);
            assert!(matches!(
                exit.error,
                Some(Error::Process(ProcessError::UnexpectedExit(None)))
            ));
        }
        other => panic!("unexpected: {:?}", other),
    }
}

#[test]
fn a_failure_on_the_way_up_ends_the_bridge_at_once() {
    let config = Config::with_defaults("broker".to_string(), "B".to_string());

    let mut supervisor = Supervisor::new(&config);
    supervisor.next(Event::Start);
    let missing = Error::Process(ProcessError::ConfigNotFound("/config/vcontrold.xml".to_string()));
    match supervisor.next(Event::Failed(missing)) {
        Step::Exit(exit) => {
            assert_ne!(exit.code, 0);
            assert!(matches!(exit.error, Some(Error::Process(ProcessError::ConfigNotFound(_)))));
        }
        other => panic!("unexpected: {:?}", other),
    }
    assert_eq!(supervisor.phase(), Phase::Stopped);

    let mut supervisor = Supervisor::new(&config);
    supervisor.next(Event::Start);
    supervisor.next(Event::Spawned);
    let late = Error::Process(ProcessError::ReadinessTimeout(30));
    match supervisor.next(Event::Failed(late)) {
        Step::Exit(exit) => {
            assert_eq!(exit.code, 1);
            assert!(matches!(exit.error, Some(Error::Process(ProcessError::ReadinessTimeout(30)))));
        }
        other => panic!("unexpected: {:?}", other),
    }
}

#[test]
fn events_out_of_turn_end_the_bridge() {
    let config = Config::with_defaults("broker".to_string(), "B".to_string());
    let mut supervisor = Supervisor::new(&config);
    match supervisor.next(Event::Ready) {
        Step::Exit(exit) => {
            assert_eq!(exit.code, 1);
            assert!(exit.error.is_none());
        }
        other => panic!("unexpected: {:?}", other),
    }
    assert_eq!(supervisor.phase(), Phase::Stopped);
    assert!(matches!(supervisor.next(Event::Start), Step::Exit(_)));

    let mut supervisor = Supervisor::new(&config);
    supervisor.next(Event::Start);
    assert!(matches!(
        supervisor.next(Event::Completed(Completion::ShutdownSignal)),
        Step::Exit(_)
    ));
}
