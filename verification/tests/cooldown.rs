use room_invites::cooldown::{arm, is_blocked, lookup, slow_mode, RedisKey};
use room_invites::protocol::{Action, CacheReply};

#[test]
fn redis_key_is_written_as_user_hyphen_channel() {
    let key = RedisKey { uid: "111".to_string(), cid: "222".to_string() };
    assert_eq!(key.to_string(), "111-222");
}

#[test]
fn redis_key_is_read_from_two_pieces() {
    assert_eq!(
        RedisKey::from_str("111-222"),
        Ok(RedisKey { uid: "111".to_string(), cid: "222".to_string() })
    );
    assert_eq!(
        RedisKey::from_str("-"),
        Ok(RedisKey { uid: "".to_string(), cid: "".to_string() })
    );
}

#[test]
fn redis_key_is_not_read_from_any_other_count() {
    let message = "Invalid format: Expected 'uid-cid'".to_string();
    assert_eq!(RedisKey::from_str(""), Err(message.clone()));
    assert_eq!(RedisKey::from_str("111"), Err(message.clone()));
    assert_eq!(RedisKey::from_str("111-222-333"), Err(message.clone()));
    assert_eq!(RedisKey::from_str("1-2-3-4"), Err(message));
}

#[test]
fn redis_key_is_read_back_as_written() {
    let key = RedisKey { uid: "314159265358979323".to_string(), cid: "271828182845904523".to_string() };
    assert_eq!(RedisKey::from_str(&key.to_string()), Ok(key));
}

#[test]
fn only_a_key_that_is_there_blocks() {
    assert!(is_blocked(CacheReply::Present));
    assert!(!is_blocked(CacheReply::Absent));
}

#[test]
fn an_unreachable_cache_blocks_nobody() {
    assert!(!is_blocked(CacheReply::Unreachable));
}

#[test]
fn lookup_asks_for_the_key_of_user_and_channel() {
    assert_eq!(lookup("111", "222"), Action::LookupCooldown { key: "111-222".to_string() });
}

#[test]
fn arm_sets_the_key_of_user_and_channel() {
    assert_eq!(
        arm("111", "222", 30),
        Action::ArmCooldown { key: "111-222".to_string(), seconds: 30 }
    );
}

#[test]
fn slow_mode_is_zero_where_nothing_is_said() {
    assert_eq!(slow_mode(None), 0);
    assert_eq!(slow_mode(Some(0)), 0);
    assert_eq!(slow_mode(Some(30)), 30);
    assert_eq!(slow_mode(Some(u16::MAX)), 65535);
}
