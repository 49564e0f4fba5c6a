use pinbot::text::{
    build_audit_reason, build_failure_content, build_guild_only_content, build_link_url,
    build_success_content, u64_dec,
};

#[test]
fn decimal_of_zero() {
    assert_eq!(u64_dec(0), "0");
}

#[test]
fn decimal_of_round_number() {
    assert_eq!(u64_dec(10), "10");
    assert_eq!(u64_dec(100), "100");
}

#[test]
fn decimal_of_ordinary_number() {
    assert_eq!(u64_dec(42), "42");
    assert_eq!(u64_dec(987654321), "987654321");
}

#[test]
fn decimal_of_largest_value() {
    assert_eq!(u64_dec(u64::MAX), "18446744073709551615");
}

#[test]
fn link_url_shape() {
    assert_eq!(
        build_link_url(1, 2, 3),
        "https://discord.com/channels/1/2/3"
    );
    assert_eq!(
        build_link_url(1100560940056707072, 1100560940589383763, 1199999999999999999),
        "https://discord.com/channels/1100560940056707072/1100560940589383763/1199999999999999999"
    );
}

#[test]
fn audit_reason_shape() {
    assert_eq!(build_audit_reason(true, "Alice", "general"), "Alice pinned a message in general");
    assert_eq!(
        build_audit_reason(false, "Bob", "off-topic"),
        "Bob unpinned a message in off-topic"
    );
}

#[test]
fn success_content_shape() {
    assert_eq!(
        build_success_content(true, "Alice"),
        "\u{1F4CC} **Alice** pinned message in this channel."
    );
    assert_eq!(
        build_success_content(false, "Alice"),
        "\u{1F4CC} **Alice** unpinned message in this channel."
    );
}

#[test]
fn failure_content_text() {
    assert_eq!(
        build_failure_content(),
        "Encountered some error, sorry about that... Try again?"
    );
}

#[test]
fn guild_only_text() {
    assert_eq!(
        build_guild_only_content(),
        "You can't pin messages in a direct message channel. Try in a server instead!"
    );
}
