use mic_mixer::protocol::{parse_command, render_response, Command, Response};

fn parse(s: &str) -> Option<Command> {
    parse_command(s)
}

#[test]
fn parses_every_command_kind() {
    assert!(matches!(parse("{\"cmd\":\"list_devices\"}"), Some(Command::ListDevices)));
    assert!(matches!(parse("{\"cmd\":\"stop\"}"), Some(Command::Stop)));
    assert!(matches!(parse("{\"cmd\":\"pause\"}"), Some(Command::Pause)));
    assert!(matches!(parse("{\"cmd\":\"resume\"}"), Some(Command::Resume)));
    assert!(matches!(parse("{\"cmd\":\"get_status\"}"), Some(Command::GetStatus)));
    assert!(matches!(parse("{\"cmd\":\"shutdown\"}"), Some(Command::Shutdown)));
}

#[test]
fn parses_device_selection_with_its_name() {
    match parse("{\"cmd\":\"set_input_device\",\"device_name\":\"USB Mic\"}") {
        Some(Command::SetInputDevice { device_name }) => assert_eq!(device_name, "USB Mic"),
        other => panic!("unexpected: {:?}", other.is_some()),
    }
    match parse("{\"cmd\":\"set_output_device\",\"device_name\":\"VB-Cable\"}") {
        Some(Command::SetOutputDevice { device_name }) => assert_eq!(device_name, "VB-Cable"),
        _ => panic!("expected set_output_device"),
    }
}

#[test]
fn parses_play_with_volume_and_with_its_default() {
    match parse("{\"cmd\":\"play\",\"file_path\":\"a.wav\",\"volume\":0.5}") {
        Some(Command::Play { file_path, volume_milli }) => {
            assert_eq!(file_path, "a.wav");
            assert_eq!(volume_milli, 500);
        },
        _ => panic!("expected play"),
    }
    match parse("{\"cmd\":\"play\",\"file_path\":\"b.mp3\"}") {
        Some(Command::Play { volume_milli, .. }) => assert_eq!(volume_milli, 1000),
        _ => panic!("expected play with default volume"),
    }
}

#[test]
fn parses_numbers_in_thousandths() {
    let cases = [
        ("1", 1000),
        ("1.0", 1000),
        ("0.25", 250),
        ("0.123", 123),
        ("0.1239", 123),
        ("-0.5", -500),
        ("2", 2000),
        ("0", 0),
    ];
    for (text, milli) in cases {
        let line = format!("{{\"cmd\":\"set_volume\",\"volume\":{}}}", text);
        match parse(&line) {
            Some(Command::SetVolume { volume_milli }) => assert_eq!(volume_milli, milli),
            _ => panic!("expected set_volume for {}", text),
        }
    }
}

#[test]
fn accepts_any_field_order_and_whitespace() {
    match parse("  { \"volume\" : 0.75 , \"cmd\" : \"play\" , \"file_path\" : \"x.ogg\" }  ") {
        Some(Command::Play { file_path, volume_milli }) => {
            assert_eq!(file_path, "x.ogg");
            assert_eq!(volume_milli, 750);
        },
        _ => panic!("expected play"),
    }
}

#[test]
fn skips_unknown_fields_even_nested_ones() {
    let line = "{\"cmd\":\"stop\",\"extra\":{\"a\":[1,2,{\"b\":null}],\"c\":true},\"more\":\"x\"}";
    assert!(matches!(parse(line), Some(Command::Stop)));
}

#[test]
fn decodes_string_escapes() {
    match parse("{\"cmd\":\"set_input_device\",\"device_name\":\"a\\\"b\\\\c\\nd\\te\"}") {
        Some(Command::SetInputDevice { device_name }) => {
            assert_eq!(device_name, "a\"b\\c\nd\te");
        },
        _ => panic!("expected set_input_device"),
    }
}

#[test]
fn refuses_malformed_lines() {
    let bad = [
        "",
        "not json",
        "{",
        "{}",
        "{\"cmd\":\"no_such_cmd\"}",
        "{\"cmd\":\"play\"}",
        "{\"cmd\":\"set_volume\"}",
        "{\"cmd\":\"set_input_device\"}",
        "{\"cmd\":\"stop\"} trailing",
        "{\"cmd\":\"stop\",\"cmd\":\"pause\"}",
        "{\"cmd\":\"set_volume\",\"volume\":01}",
        "{\"cmd\":\"set_volume\",\"volume\":1e3}",
        "{\"cmd\":\"set_volume\",\"volume\":.5}",
        "{\"cmd\":\"set_volume\",\"volume\":\"loud\"}",
        "{\"cmd\":42}",
        "[\"cmd\",\"stop\"]",
    ];
    for line in bad {
        assert!(parse(line).is_none(), "should refuse: {}", line);
    }
}

#[test]
fn far_out_of_range_volumes_saturate_and_still_parse() {
    match parse("{\"cmd\":\"set_volume\",\"volume\":999999999999999999999}") {
        Some(Command::SetVolume { volume_milli }) => assert_eq!(volume_milli, 100_000_000_000_000),
        _ => panic!("expected set_volume"),
    }
}

#[test]
fn renders_ok_and_error_lines() {
    assert_eq!(render_response(&Response::Accepted), "{\"type\":\"ok\"}");
    let e = Response::error(String::from("went wrong"));
    assert_eq!(
        render_response(&e),
        "{\"type\":\"error\",\"message\":\"went wrong\"}"
    );
}

#[test]
fn renders_device_listings() {
    let r = Response::Devices {
        input: vec![String::from("Mic A"), String::from("Mic B")],
        output: vec![],
    };
    assert_eq!(
        render_response(&r),
        "{\"type\":\"devices\",\"input\":[\"Mic A\",\"Mic B\"],\"output\":[]}"
    );
}

#[test]
fn renders_status_with_volume_as_a_decimal() {
    let r = Response::Status {
        playing: true,
        paused: false,
        volume: 500,
        input_device: Some(String::from("USB Mic")),
        output_device: None,
    };
    assert_eq!(
        render_response(&r),
        "{\"type\":\"status\",\"playing\":true,\"paused\":false,\"volume\":0.5,\
         \"input_device\":\"USB Mic\",\"output_device\":null}"
    );
    let unity = Response::Status {
        playing: false,
        paused: true,
        volume: 1000,
        input_device: None,
        output_device: None,
    };
    assert_eq!(
        render_response(&unity),
        "{\"type\":\"status\",\"playing\":false,\"paused\":true,\"volume\":1.0,\
         \"input_device\":null,\"output_device\":null}"
    );
}

#[test]
fn renders_trimmed_fractions() {
    for (milli, text) in [(0u32, "0.0"), (250, "0.25"), (123, "0.123"), (100, "0.1"), (1000, "1.0")]
    {
        let r = Response::Status {
            playing: false,
            paused: false,
            volume: milli,
            input_device: None,
            output_device: None,
        };
        let line = render_response(&r);
        let want = format!(",\"volume\":{},", text);
        assert!(line.contains(&want), "{} should contain {}", line, want);
    }
}

#[test]
fn escapes_strings_on_the_way_out() {
    let r = Response::error(String::from("say \"hi\"\\\n\u{1}"));
    assert_eq!(
        render_response(&r),
        "{\"type\":\"error\",\"message\":\"say \\\"hi\\\"\\\\\\n\\u0001\"}"
    );
}

#[test]
fn round_trips_a_device_name_through_both_directions() {
    // what the renderer escapes, the parser reads back unchanged
    let name = "We\"ird\\Na\tme";
    let r = Response::Status {
        playing: false,
        paused: false,
        volume: 1000,
        input_device: Some(String::from(name)),
        output_device: None,
    };
    let line = render_response(&r);
    // lift the escaped name text out of the status line and feed it back in
    let key = "\"input_device\":\"";
    let start = line.find(key).unwrap() + key.len();
    let end = line[start..].find("\",\"output_device\"").unwrap() + start;
    let escaped = &line[start..end];
    let back = format!("{{\"cmd\":\"set_input_device\",\"device_name\":\"{}\"}}", escaped);
    match parse(&back) {
        Some(Command::SetInputDevice { device_name }) => assert_eq!(device_name, name),
        _ => panic!("expected the escaped name to parse back"),
    }
}
