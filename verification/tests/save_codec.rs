use space_cleanup::player::Player;
use space_cleanup::save::{encode_save, parse_save, SaveData};

#[test]
fn encode_matches_expected_json() {
    let d = SaveData { x: 12, y: 34, coins: 5 };
    let bytes = encode_save(&d);
    assert_eq!(bytes, b"{\"position\":{\"x\":12,\"y\":34},\"coins\":5}".to_vec());
}

#[test]
fn encode_negative_values() {
    let d = SaveData { x: -7, y: 0, coins: -123 };
    let bytes = encode_save(&d);
    assert_eq!(bytes, b"{\"position\":{\"x\":-7,\"y\":0},\"coins\":-123}".to_vec());
}

#[test]
fn encode_output_is_valid_json() {
    let d = SaveData { x: 640, y: 540, coins: 3 };
    let bytes = encode_save(&d);
    let value: serde_json::Value = serde_json::from_slice(&bytes).unwrap();
    assert_eq!(value["position"]["x"], serde_json::Value::from(640));
    assert_eq!(value["position"]["y"], serde_json::Value::from(540));
    assert_eq!(value["coins"], serde_json::Value::from(3));
}

#[test]
fn parse_inverts_encode() {
    let cases = [
        SaveData { x: 0, y: 0, coins: 0 },
        SaveData { x: 1280, y: 720, coins: 42 },
        SaveData { x: -1, y: -999999, coins: 2147483647 },
        SaveData { x: i32::MIN, y: 7, coins: i32::MIN },
    ];
    for d in cases {
        let bytes = encode_save(&d);
        assert_eq!(parse_save(&bytes), Some(d));
    }
}

#[test]
fn parse_accepts_fractional_positions() {
    let bytes = b"{\"position\":{\"x\":637.75,\"y\":-12.5},\"coins\":9}".to_vec();
    let d = parse_save(&bytes).unwrap();
    assert_eq!(d.x, 637);
    assert_eq!(d.y, -12);
    assert_eq!(d.coins, 9);
}

#[test]
fn parse_rejects_malformed_bytes() {
    assert_eq!(parse_save(&Vec::new()), None);
    assert_eq!(parse_save(&b"{}".to_vec()), None);
    assert_eq!(parse_save(&b"{\"position\":{\"x\":1,\"y\":2},\"coins\":}".to_vec()), None);
    assert_eq!(parse_save(&b"{\"position\":{\"x\":1,\"y\":2},\"coins\":3} ".to_vec()), None);
    assert_eq!(parse_save(&b"{\"position\":{\"x\":a,\"y\":2},\"coins\":3}".to_vec()), None);
    // value beyond the i32 range
    assert_eq!(
        parse_save(&b"{\"position\":{\"x\":2147483648,\"y\":2},\"coins\":3}".to_vec()),
        None,
    );
}

#[test]
fn parse_accepts_extreme_in_range_values() {
    let bytes = b"{\"position\":{\"x\":2147483647,\"y\":-2147483648},\"coins\":0}".to_vec();
    let d = parse_save(&bytes).unwrap();
    assert_eq!(d.x, 2147483647);
    assert_eq!(d.y, i32::MIN);
}

#[test]
fn player_save_load_round_trip() {
    let mut p = Player::new(1280, 720);
    p.position.x = 321;
    p.position.y = 77;
    p.coins = 9;
    p.points = 55;
    p.health = 2;
    let bytes = p.save_player();
    let q = Player::load_player(&bytes, 1280, 720);
    // position and coins survive the round trip
    assert_eq!(q.position.x, 321);
    assert_eq!(q.position.y, 77);
    assert_eq!(q.coins, 9);
    // health and points are not persisted: they reset to their defaults
    assert_eq!(q.health, 5);
    assert_eq!(q.points, 0);
}

#[test]
fn load_falls_back_to_fresh_player() {
    let p = Player::load_player(&b"not json".to_vec(), 1280, 720);
    assert_eq!(p, Player::new(1280, 720));
    assert_eq!(p.position.x, 640);
    assert_eq!(p.position.y, 540);
    assert_eq!(p.coins, 0);
}
