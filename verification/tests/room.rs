use room_invites::room::{geturl, resolve};

#[test]
fn geturl_turns_a_code_into_a_link() {
    assert_eq!(
        geturl("ABC123"),
        Some("https://link.brawlstars.com/invite/gameroom/en?tag=ABC123".to_string())
    );
}

#[test]
fn geturl_takes_codes_of_six_to_ten_characters() {
    assert_eq!(
        geturl("abcdef"),
        Some("https://link.brawlstars.com/invite/gameroom/en?tag=abcdef".to_string())
    );
    assert_eq!(
        geturl("XW8fuJ8B"),
        Some("https://link.brawlstars.com/invite/gameroom/en?tag=XW8fuJ8B".to_string())
    );
    assert_eq!(
        geturl("0123456789"),
        Some("https://link.brawlstars.com/invite/gameroom/en?tag=0123456789".to_string())
    );
}

#[test]
fn geturl_refuses_codes_of_another_length() {
    assert_eq!(geturl(""), None);
    assert_eq!(geturl("ABC12"), None);
    assert_eq!(geturl("0123456789A"), None);
}

#[test]
fn geturl_refuses_codes_with_other_characters() {
    assert_eq!(geturl("ABC-123"), None);
    assert_eq!(geturl("ABC 123"), None);
    assert_eq!(geturl("ABC123\n"), None);
    assert_eq!(geturl(" ABC123"), None);
    assert_eq!(geturl("ÄBC1234"), None);
    assert_eq!(geturl("ABC_123"), None);
}

#[test]
fn geturl_hands_a_full_link_back_as_it_is() {
    let link = "https://link.brawlstars.com/invite/gameroom/en?tag=XW8FUJ8B";
    assert_eq!(geturl(link), Some(link.to_string()));
    let other = "https://link.brawlstars.com/invite/gameroom/de?tag=a1";
    assert_eq!(geturl(other), Some(other.to_string()));
}

#[test]
fn geturl_refuses_links_of_another_shape() {
    assert_eq!(geturl("https://link.brawlstars.com/invite/gameroom/en?tag="), None);
    assert_eq!(geturl("https://link.brawlstars.com/invite/gameroom/EN?tag=ABC123"), None);
    assert_eq!(geturl("https://link.brawlstars.com/invite/gameroom/eng?tag=ABC123"), None);
    assert_eq!(geturl("https://link.brawlstars.com/invite/friend/en?tag=ABC123"), None);
    assert_eq!(geturl("http://link.brawlstars.com/invite/gameroom/en?tag=ABC123"), None);
    assert_eq!(geturl("https://linkxbrawlstars.com/invite/gameroom/en?tag=ABC123"), None);
    assert_eq!(geturl("https://link.brawlstars.com/invite/gameroom/en?tag=ABC123&x=1"), None);
    assert_eq!(geturl("see https://link.brawlstars.com/invite/gameroom/en?tag=ABC123"), None);
    assert_eq!(geturl("https://example.com/invite/gameroom/en?tag=ABC123"), None);
}

#[test]
fn geturl_refuses_what_is_neither_code_nor_link() {
    assert_eq!(geturl("hello world, join my room"), None);
    assert_eq!(geturl("!!!"), None);
}

#[test]
fn resolve_prefers_the_link_to_the_code() {
    let link = "https://link.brawlstars.com/invite/gameroom/en?tag=XW8FUJ8B";
    assert_eq!(resolve(link, true, true), Some(link.to_string()));
    assert_eq!(resolve(link, true, false), Some(link.to_string()));
}

#[test]
fn resolve_takes_a_link_hit_only_behind_the_host() {
    assert_eq!(resolve("ABC123", true, false), None);
    assert_eq!(
        resolve("ABC123", true, true),
        Some("https://link.brawlstars.com/invite/gameroom/en?tag=ABC123".to_string())
    );
}

#[test]
fn resolve_appends_a_code_to_the_stem() {
    assert_eq!(
        resolve("ABC123", false, true),
        Some("https://link.brawlstars.com/invite/gameroom/en?tag=ABC123".to_string())
    );
}

#[test]
fn resolve_gives_none_without_a_hit() {
    assert_eq!(resolve("ABC123", false, false), None);
    assert_eq!(resolve("https://link.brawlstars.com", false, false), None);
}
