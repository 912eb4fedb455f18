use vcontrold_mqttd::error::VcontroldError;
use vcontrold_mqttd::json::{JsonObject, JsonValue};
use vcontrold_mqttd::mqtt::client::publish;
use vcontrold_mqttd::mqtt::subscriber::{Request, Subscriber, REQUEST_SUFFIX, RESPONSE_SUFFIX};
use vcontrold_mqttd::number::Number;
use vcontrold_mqttd::vcontrold::protocol::{number_token, parse_response, CommandResult};

fn parse_line(command: &str, raw: &str) -> CommandResult {
    let number = number_token(raw)
        .parse::<f64>()
        .ok()
        .and_then(|x| Number::from_bits(x.to_bits()));
    parse_response(command, raw, number)
}

fn render(object: &JsonObject) -> String {
    let mut map = serde_json::Map::new();
    for (key, value) in object.members() {
        let value = match value {
            JsonValue::Null => serde_json::Value::Null,
            JsonValue::Integer(k) => serde_json::Value::from(*k),
            JsonValue::Float(n) => serde_json::Value::from(f64::from_bits(n.bits())),
            JsonValue::String(s) => serde_json::Value::from(s.as_str()),
        };
        map.insert(key.clone(), value);
    }
    serde_json::Value::Object(map).to_string()
}

#[test]
fn topics_hang_under_the_base_topic() {
    let subscriber = Subscriber::new("home/heating");
    assert_eq!(subscriber.request_topic(), "home/heating/request");
    assert_eq!(subscriber.response_topic(), "home/heating/response");
    assert_eq!(REQUEST_SUFFIX, "request");
    assert_eq!(RESPONSE_SUFFIX, "response");
}

#[test]
fn is_request_takes_the_request_topic_only() {
    let subscriber = Subscriber::new("B");
    assert!(subscriber.is_request("B/request"));
    assert!(!subscriber.is_request("B/response"));
    assert!(!subscriber.is_request("B/request/"));
    assert!(!subscriber.is_request("b/request"));
    assert!(!subscriber.is_request(""));
}

#[test]
fn parse_commands_splits_at_commas() {
    assert_eq!(Subscriber::parse_commands("getTempWWObenIst"), vec!["getTempWWObenIst"]);
    assert_eq!(
        Subscriber::parse_commands("getTempWWObenIst,getTempWWsoll"),
        vec!["getTempWWObenIst", "getTempWWsoll"]
    );
    assert_eq!(Subscriber::parse_commands("setTempWWsoll 50"), vec!["setTempWWsoll 50"]);
    assert_eq!(
        Subscriber::parse_commands("set1xWW 2,setTempWWsoll 50,getTempA"),
        vec!["set1xWW 2", "setTempWWsoll 50", "getTempA"]
    );
}

#[test]
fn parse_commands_trims_and_drops_empty_items() {
    assert_eq!(
        Subscriber::parse_commands("  getTempA , ,getTempB,,\t\n, x  y ,"),
        vec!["getTempA", "getTempB", "x  y"]
    );
    assert!(Subscriber::parse_commands("").is_empty());
    assert!(Subscriber::parse_commands(" , ,, ").is_empty());
    assert!(Subscriber::parse_commands(",").is_empty());
}

#[test]
fn messages_on_other_topics_are_passed_over() {
    let subscriber = Subscriber::new("B");
    assert!(matches!(subscriber.on_message("B/command/getTempA", "getTempA"), Request::NotARequest));
    assert!(matches!(subscriber.on_message("B/response", "getTempA"), Request::NotARequest));
}

#[test]
fn empty_requests_are_passed_over() {
    let subscriber = Subscriber::new("B");
    assert!(matches!(subscriber.on_message("B/request", ""), Request::Empty));
    assert!(matches!(subscriber.on_message("B/request", "  \n"), Request::Empty));
    assert!(matches!(subscriber.on_message("B/request", " , ,"), Request::NoCommands));
}

#[test]
fn request_and_response() {
    let subscriber = Subscriber::new("B");
    let commands = match subscriber.on_message("B/request", "getTempA,getTempB") {
        Request::Execute(commands) => commands,
        other => panic!("unexpected: {:?}", other),
    };
    assert_eq!(commands, vec!["getTempA", "getTempB"]);
    let answers = ["21.5 Grad Celsius", "45 Grad Celsius"];
    let results: Vec<Result<CommandResult, VcontroldError>> = commands
        .iter()
        .zip(answers.iter())
        .map(|(command, answer)| Ok(parse_line(command, answer)))
        .collect();
    let object = Subscriber::response_for(&results).unwrap();
    let message = publish(&subscriber.response_topic(), &render(&object));
    assert_eq!(message.topic, "B/response");
    assert_eq!(message.payload, "{\"getTempA\":21.5,\"getTempB\":45}");
    assert!(!message.retain);
}

#[test]
fn failed_commands_are_left_out_of_the_response() {
    let results: Vec<Result<CommandResult, VcontroldError>> = vec![
        Err(VcontroldError::Timeout),
        Ok(parse_line("getBad", "ERR: command unknown")),
        Ok(parse_line("getTempA", "21.5")),
        Err(VcontroldError::Command("invalid characters".to_string())),
    ];
    let object = Subscriber::response_for(&results).unwrap();
    assert_eq!(render(&object), "{\"getTempA\":21.5}");
}

#[test]
fn no_response_where_every_command_failed() {
    let results: Vec<Result<CommandResult, VcontroldError>> = vec![
        Err(VcontroldError::ConnectionLost),
        Ok(parse_line("getBad", "ERR: command unknown")),
    ];
    assert!(Subscriber::response_for(&results).is_none());
    assert!(Subscriber::response_for(&[]).is_none());
}
