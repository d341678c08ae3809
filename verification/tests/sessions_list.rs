use hdesk_platform::sessions::{
    name_sessions, push_decimal, session_slots, split_on_char, trim_char, unnamed_sessions,
    StationSession,
};

fn slots_of(raw: &str, console: u32) -> Vec<(u32, String)> {
    session_slots(raw, console)
        .iter()
        .map(|s| (s.sid, s.station.iter().collect()))
        .collect()
}

fn station(sid: u32, name: &str) -> StationSession {
    StationSession {
        sid,
        station: name.chars().collect(),
    }
}

#[test]
fn station_list_gives_each_session_once_console_first() {
    let raw = "\0 RDP-Tcp#0:2,Console:1,Services:0,bad,x:y,a:b:3,Console:1, \0\0";
    assert_eq!(
        slots_of(raw, 1),
        vec![
            (1, String::from("Console")),
            (2, String::from("RDP-Tcp#0")),
            (0, String::from("Services")),
        ]
    );
    assert_eq!(
        slots_of(raw, u32::MAX),
        vec![
            (2, String::from("RDP-Tcp#0")),
            (1, String::from("Console")),
            (0, String::from("Services")),
        ]
    );
    assert_eq!(slots_of("", u32::MAX), vec![]);
    assert_eq!(slots_of("\0\0\0", 4), vec![(4, String::from("Console"))]);
}

#[test]
fn sessions_are_named_after_station_and_user() {
    let slots = vec![station(1, "Console"), station(2, "RDP-Tcp#0"), station(3, "RDP-Tcp#1")];
    let users = vec![String::from("alice"), String::from("bob"), String::from("bob")];
    let named = name_sessions(&slots, &users, 2);
    let names: Vec<(u32, &str)> = named.iter().map(|s| (s.sid, s.name.as_str())).collect();
    assert_eq!(
        names,
        vec![
            (1, "Console: alice"),
            (2, "RDP-Tcp#0: bob (running)"),
            (3, "RDP-Tcp#1: bob"),
        ]
    );
}

#[test]
fn equal_names_are_told_apart_by_sid() {
    let slots = vec![station(3, "RDP-Tcp"), station(1234567890, "RDP-Tcp"), station(7, "Console")];
    let users = vec![String::new(), String::new(), String::new()];
    let named = name_sessions(&slots, &users, 1234567890);
    assert_eq!(named[0].name, "RDP-Tcp (sid = 3)");
    assert_eq!(named[1].name, "RDP-Tcp (sid = 1234567890) (running)");
    assert_eq!(named[2].name, "Console");
    let named = name_sessions(&slots, &users, 0);
    assert_eq!(named[1].name, "RDP-Tcp (sid = 1234567890)");
    let bare = unnamed_sessions(&slots);
    assert_eq!(bare.len(), 3);
    assert!(bare.iter().all(|s| s.name.is_empty()));
    assert_eq!(bare[1].sid, 1234567890);
}

#[test]
fn text_helpers_split_and_trim() {
    let chars: Vec<char> = "a,,b,".chars().collect();
    let parts: Vec<String> = split_on_char(&chars, ',').iter().map(|p| p.iter().collect()).collect();
    assert_eq!(parts, vec!["a", "", "b", ""]);
    let chars: Vec<char> = "\0\0x\0y\0".chars().collect();
    assert_eq!(trim_char(&chars, '\0').iter().collect::<String>(), "x\0y");
    let mut v = Vec::new();
    push_decimal(&mut v, 0);
    v.push(' ');
    push_decimal(&mut v, 18446744073709551615);
    assert_eq!(v.iter().collect::<String>(), "0 18446744073709551615");
}
