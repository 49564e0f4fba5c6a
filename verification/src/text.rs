//! Exact text of everything the bot ever shows a user, and of the audit
//! reason attached to pin actions: specified at the character level and
//! built by verified code.

use vstd::prelude::*;

verus! {

/// Decimal digit character for a value below ten.
pub open spec fn digit_char(d: int) -> char {
    if d == 0 {
        '0'
    } else if d == 1 {
        '1'
    } else if d == 2 {
        '2'
    } else if d == 3 {
        '3'
    } else if d == 4 {
        '4'
    } else if d == 5 {
        '5'
    } else if d == 6 {
        '6'
    } else if d == 7 {
        '7'
    } else if d == 8 {
        '8'
    } else {
        '9'
    }
}

/// Decimal representation of `n`, most significant digit first, without
/// leading zeros (zero itself is the single character `'0'`).
pub open spec fn dec_rep(n: nat) -> Seq<char>
    decreases n,
{
    if n < 10 {
        seq![digit_char(n as int)]
    } else {
        dec_rep(n / 10) + seq![digit_char((n % 10) as int)]
    }
}

/// Appends the single decimal digit `d` to `s`.
fn push_digit(s: &mut String, d: u64)
    requires
        d < 10,
    ensures
        final(s)@ == old(s)@ + seq![digit_char(d as int)],
{
    if d == 0 {
        s.append("0");
        proof {
            reveal_strlit("0");
            assert(final(s)@ =~= old(s)@ + seq![digit_char(d as int)]);
        }
    } else if d == 1 {
        s.append("1");
        proof {
            reveal_strlit("1");
            assert(final(s)@ =~= old(s)@ + seq![digit_char(d as int)]);
        }
    } else if d == 2 {
        s.append("2");
        proof {
            reveal_strlit("2");
            assert(final(s)@ =~= old(s)@ + seq![digit_char(d as int)]);
        }
    } else if d == 3 {
        s.append("3");
        proof {
            reveal_strlit("3");
            assert(final(s)@ =~= old(s)@ + seq![digit_char(d as int)]);
        }
    } else if d == 4 {
        s.append("4");
        proof {
            reveal_strlit("4");
            assert(final(s)@ =~= old(s)@ + seq![digit_char(d as int)]);
        }
    } else if d == 5 {
        s.append("5");
        proof {
            reveal_strlit("5");
            assert(final(s)@ =~= old(s)@ + seq![digit_char(d as int)]);
        }
    } else if d == 6 {
        s.append("6");
        proof {
            reveal_strlit("6");
            assert(final(s)@ =~= old(s)@ + seq![digit_char(d as int)]);
        }
    } else if d == 7 {
        s.append("7");
        proof {
            reveal_strlit("7");
            assert(final(s)@ =~= old(s)@ + seq![digit_char(d as int)]);
        }
    } else if d == 8 {
        s.append("8");
        proof {
            reveal_strlit("8");
            assert(final(s)@ =~= old(s)@ + seq![digit_char(d as int)]);
        }
    } else {
        s.append("9");
        proof {
            reveal_strlit("9");
            assert(final(s)@ =~= old(s)@ + seq![digit_char(d as int)]);
        }
    }
}

/// Renders `n` in decimal.
pub fn u64_dec(n: u64) -> (s: String)
    ensures
        s@ == dec_rep(n as nat),
    decreases n,
{
    if n < 10 {
        let mut s = String::new();
        push_digit(&mut s, n);
        proof {
            assert(s@ =~= dec_rep(n as nat));
        }
        s
    } else {
        let mut s = u64_dec(n / 10);
        push_digit(&mut s, n % 10);
        proof {
            assert(s@ =~= dec_rep(n as nat));
        }
        s
    }
}

/// The content of the follow-up sent after a successful pin or unpin.
pub open spec fn success_content(pin: bool, user: Seq<char>) -> Seq<char> {
    "\u{1F4CC} **"@ + user + "** "@ + (if pin {
        ""@
    } else {
        "un"@
    }) + "pinned message in this channel."@
}

/// The content of the follow-up sent after a failed pin or unpin.
pub open spec fn failure_content() -> Seq<char> {
    "Encountered some error, sorry about that... Try again?"@
}

/// The non-deferred reply to an invocation made outside a guild.
pub open spec fn guild_only_content() -> Seq<char> {
    "You can't pin messages in a direct message channel. Try in a server instead!"@
}

/// The link a follow-up button points at: the platform's canonical URL of
/// the acted-upon message.
pub open spec fn link_url(guild: u64, channel: u64, message: u64) -> Seq<char> {
    "https://discord.com/channels/"@ + dec_rep(guild as nat) + "/"@ + dec_rep(channel as nat)
        + "/"@ + dec_rep(message as nat)
}

/// The audit-log reason recorded beside a pin or unpin action.
pub open spec fn audit_reason(pin: bool, user: Seq<char>, channel: Seq<char>) -> Seq<char> {
    user + (if pin {
        " pinned a message in "@
    } else {
        " unpinned a message in "@
    }) + channel
}

/// Builds the success follow-up content for the given display name.
pub fn build_success_content(pin: bool, user: &str) -> (s: String)
    ensures
        s@ == success_content(pin, user@),
{
    let mut s = String::from_str("\u{1F4CC} **");
    s.append(user);
    s.append("** ");
    s.append(if pin {
        ""
    } else {
        "un"
    });
    s.append("pinned message in this channel.");
    proof {
        assert(s@ =~= success_content(pin, user@));
    }
    s
}

/// Builds the failure follow-up content.
pub fn build_failure_content() -> (s: String)
    ensures
        s@ == failure_content(),
{
    String::from_str("Encountered some error, sorry about that... Try again?")
}

/// Builds the guild-only reply content.
pub fn build_guild_only_content() -> (s: String)
    ensures
        s@ == guild_only_content(),
{
    String::from_str("You can't pin messages in a direct message channel. Try in a server instead!")
}

/// Builds the message-link URL from the three identifiers.
pub fn build_link_url(guild: u64, channel: u64, message: u64) -> (s: String)
    ensures
        s@ == link_url(guild, channel, message),
{
    let mut s = String::from_str("https://discord.com/channels/");
    let g = u64_dec(guild);
    s.append(g.as_str());
    s.append("/");
    let c = u64_dec(channel);
    s.append(c.as_str());
    s.append("/");
    let m = u64_dec(message);
    s.append(m.as_str());
    proof {
        assert(s@ =~= link_url(guild, channel, message));
    }
    s
}

/// Builds the audit-log reason for the given display and channel names.
pub fn build_audit_reason(pin: bool, user: &str, channel: &str) -> (s: String)
    ensures
        s@ == audit_reason(pin, user@, channel@),
{
    let mut s = String::from_str(user);
    s.append(if pin {
        " pinned a message in "
    } else {
        " unpinned a message in "
    });
    s.append(channel);
    proof {
        assert(s@ =~= audit_reason(pin, user@, channel@));
    }
    s
}

} // verus!
