use htb::jsonv::Json;
use htb::machine::{machine_from_json, Difficulty, Machine, OperatingSystem};

fn machine_object(id: &str, name: &str, os: &str, difficulty: &str, ip: &str) -> Json {
    Json::Obj(vec![
        ("id".to_string(), Json::Num(id.to_string())),
        ("name".to_string(), Json::Str(name.to_string())),
        ("os".to_string(), Json::Str(os.to_string())),
        ("difficultyText".to_string(), Json::Str(difficulty.to_string())),
        ("ip".to_string(), Json::Str(ip.to_string())),
    ])
}

#[test]
fn os_labels() {
    assert_eq!(OperatingSystem::from_str("Linux"), Some(OperatingSystem::Linux));
    assert_eq!(OperatingSystem::from_str("Windows"), Some(OperatingSystem::Windows));
    assert_eq!(OperatingSystem::from_str("linux"), None);
    assert_eq!(OperatingSystem::from_str(""), None);
}

#[test]
fn difficulty_labels() {
    assert_eq!(Difficulty::from_str("Easy"), Some(Difficulty::Easy));
    assert_eq!(Difficulty::from_str("VeryEase"), Some(Difficulty::VeryEasy));
    assert_eq!(Difficulty::from_str("VeryEasy"), None);
    assert_eq!(Difficulty::from_str("Medium"), Some(Difficulty::Medium));
    assert_eq!(Difficulty::from_str("Hard"), Some(Difficulty::Hard));
    assert_eq!(Difficulty::from_str("Insane"), Some(Difficulty::Insane));
    assert_eq!(Difficulty::from_str("easy"), None);
}

#[test]
fn machine_fields_carry_over() {
    let info = machine_object("341", "Lame", "Linux", "Easy", "10.10.10.3");
    let m: Machine = machine_from_json(&info, "/opt/cs").expect("well-formed machine");
    assert_eq!(m.id, 341);
    assert_eq!(m.name, "Lame");
    assert_eq!(m.os, OperatingSystem::Linux);
    assert_eq!(m.difficulty, Difficulty::Easy);
    assert_eq!(m.ip, "10.10.10.3");
    assert_eq!(m.home, "/opt/cs/htb/lab/lame");
}

#[test]
fn machine_home_lowercases_mixed_name() {
    let info = machine_object("7", "GrandMonarch", "Windows", "Insane", "10.10.10.24");
    let m = machine_from_json(&info, "/lab").expect("well-formed machine");
    assert_eq!(m.os, OperatingSystem::Windows);
    assert_eq!(m.home, "/lab/htb/lab/grandmonarch");
}

#[test]
fn machine_unrecognized_os_fails() {
    let info = machine_object("1", "Box", "BeOS", "Easy", "10.0.0.1");
    assert!(machine_from_json(&info, "/opt").is_none());
}

#[test]
fn machine_unrecognized_difficulty_fails() {
    let info = machine_object("1", "Box", "Linux", "Trivial", "10.0.0.1");
    assert!(machine_from_json(&info, "/opt").is_none());
}

#[test]
fn machine_id_must_be_numeric() {
    let info = Json::Obj(vec![
        ("id".to_string(), Json::Str("341".to_string())),
        ("name".to_string(), Json::Str("Lame".to_string())),
        ("os".to_string(), Json::Str("Linux".to_string())),
        ("difficultyText".to_string(), Json::Str("Easy".to_string())),
        ("ip".to_string(), Json::Str("10.10.10.3".to_string())),
    ]);
    assert!(machine_from_json(&info, "/opt").is_none());
}

#[test]
fn machine_missing_id_fails() {
    let info = Json::Obj(vec![("name".to_string(), Json::Str("Lame".to_string()))]);
    assert!(machine_from_json(&info, "/opt").is_none());
}

#[test]
fn machine_missing_ip_reads_null() {
    let info = Json::Obj(vec![
        ("id".to_string(), Json::Num("2".to_string())),
        ("name".to_string(), Json::Str("Legacy".to_string())),
        ("os".to_string(), Json::Str("Windows".to_string())),
        ("difficultyText".to_string(), Json::Str("Easy".to_string())),
    ]);
    let m = machine_from_json(&info, "/opt").expect("a missing ip reads as null");
    assert_eq!(m.ip, "null");
}
