use room_invites::codec::{decode, encode, ActionTag, ControlIntent, MalformedIdentifier};

fn fetch(creator_id: &str, timestamp: i64) -> ControlIntent {
    ControlIntent::FetchLink { creator_id: creator_id.to_string(), timestamp }
}

fn remove(creator_id: &str, timestamp: i64) -> ControlIntent {
    ControlIntent::DeleteRequest { creator_id: creator_id.to_string(), timestamp }
}

#[test]
fn encode_joins_creator_and_time() {
    assert_eq!(encode("42", 1700000000, None), "42-1700000000");
    assert_eq!(encode("314159265358979323", 0, None), "314159265358979323-0");
}

#[test]
fn encode_adds_the_delete_tag() {
    assert_eq!(encode("42", 1700000000, Some(ActionTag::Delete)), "42-1700000000-del");
}

#[test]
fn encode_writes_a_negative_time_with_its_sign() {
    assert_eq!(encode("42", -5, None), "42--5");
}

#[test]
fn decode_reads_two_pieces_as_fetch_link() {
    assert_eq!(decode("42-1700000000"), Ok(fetch("42", 1700000000)));
    assert_eq!(decode("someone-0"), Ok(fetch("someone", 0)));
}

#[test]
fn decode_reads_three_pieces_as_delete_request() {
    assert_eq!(decode("42-1700000000-del"), Ok(remove("42", 1700000000)));
}

#[test]
fn decode_does_not_look_at_the_tag() {
    assert_eq!(decode("42-17-anything"), Ok(remove("42", 17)));
    assert_eq!(decode("42-17-"), Ok(remove("42", 17)));
}

#[test]
fn decode_takes_an_empty_creator() {
    assert_eq!(decode("-17"), Ok(fetch("", 17)));
}

#[test]
fn decode_takes_a_plus_sign_in_the_time() {
    assert_eq!(decode("u1-+5"), Ok(fetch("u1", 5)));
}

#[test]
fn decode_undoes_encode_for_fetch_link() {
    let cases: Vec<(&str, i64)> = vec![
        ("42", 0),
        ("42", 1),
        ("314159265358979323", 1700000000),
        ("", 12),
        ("user_with.dots", i64::MAX),
        ("日本", 99),
    ];
    for (creator, time) in cases {
        assert_eq!(decode(&encode(creator, time, None)), Ok(fetch(creator, time)));
    }
}

#[test]
fn decode_undoes_encode_for_delete_request() {
    let cases: Vec<(&str, i64)> = vec![("42", 0), ("314159265358979323", 1700000000), ("x", i64::MAX)];
    for (creator, time) in cases {
        assert_eq!(
            decode(&encode(creator, time, Some(ActionTag::Delete))),
            Ok(remove(creator, time))
        );
    }
}

#[test]
fn decode_refuses_one_piece() {
    assert_eq!(decode(""), Err(MalformedIdentifier));
    assert_eq!(decode("abc"), Err(MalformedIdentifier));
    assert_eq!(decode("1700000000"), Err(MalformedIdentifier));
}

#[test]
fn decode_refuses_four_pieces_or_more() {
    assert_eq!(decode("a-1-del-x"), Err(MalformedIdentifier));
    assert_eq!(decode("a-1-2-3-4"), Err(MalformedIdentifier));
    assert_eq!(decode("---"), Err(MalformedIdentifier));
    assert_eq!(decode("1-2-3-4-5-6-7-8"), Err(MalformedIdentifier));
}

#[test]
fn decode_refuses_a_time_that_is_no_integer() {
    assert_eq!(decode("a-b"), Err(MalformedIdentifier));
    assert_eq!(decode("a-"), Err(MalformedIdentifier));
    assert_eq!(decode("a-1x"), Err(MalformedIdentifier));
    assert_eq!(decode("a-1x-del"), Err(MalformedIdentifier));
    assert_eq!(decode("a--del"), Err(MalformedIdentifier));
    assert_eq!(decode("a-1.5"), Err(MalformedIdentifier));
    assert_eq!(decode("a-9223372036854775808"), Err(MalformedIdentifier));
}

#[test]
fn decode_does_not_undo_a_negative_time() {
    assert_eq!(decode(&encode("42", -5, None)), Err(MalformedIdentifier));
}

#[test]
fn decode_does_not_undo_a_creator_with_a_hyphen() {
    assert_eq!(decode(&encode("a-b", 5, None)), Err(MalformedIdentifier));
    assert_eq!(decode(&encode("7-8", 5, None)), Ok(remove("7", 8)));
}
