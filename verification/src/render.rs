//! Rendering of the reply texts: the seven-line profile summary and the two
//! fixed failure messages.

use vstd::prelude::*;

use crate::profile::ProfileSpec;
use crate::profile::GitHubUser;

verus! {

/// Appends one character to a string.
///
/// Relies on `String::push`, which appends the given `char` to the end of
/// the `String`.
#[verifier::external_body]
pub(crate) fn push_char(s: &mut String, c: char)
    ensures
        final(s)@ == old(s)@.push(c),
{
    s.push(c);
}

/// The decimal digit characters, by value.
pub open spec fn digit_char(d: int) -> char {
    if d == 0 {
        '0'
    } else if d == 1 {
        '1'
    } else if d == 2 {
        '2'
    } else if d == 3 {
        '3'
    } else if d == 4 {
        '4'
    } else if d == 5 {
        '5'
    } else if d == 6 {
        '6'
    } else if d == 7 {
        '7'
    } else if d == 8 {
        '8'
    } else {
        '9'
    }
}

/// The usual decimal notation of `n`: no sign, no leading zero except for
/// `n == 0` itself.
pub open spec fn dec_digits(n: int) -> Seq<char>
    decreases n,
{
    if n < 10 {
        seq![digit_char(n)]
    } else {
        dec_digits(n / 10) + seq![digit_char(n % 10)]
    }
}

fn digit_char_exec(d: u32) -> (c: char)
    requires
        d < 10,
    ensures
        c == digit_char(d as int),
{
    if d == 0 {
        '0'
    } else if d == 1 {
        '1'
    } else if d == 2 {
        '2'
    } else if d == 3 {
        '3'
    } else if d == 4 {
        '4'
    } else if d == 5 {
        '5'
    } else if d == 6 {
        '6'
    } else if d == 7 {
        '7'
    } else if d == 8 {
        '8'
    } else {
        '9'
    }
}

/// Renders `n` in decimal.
pub fn u32_to_string(n: u32) -> (r: String)
    ensures
        r@ == dec_digits(n as int),
    decreases n,
{
    if n < 10 {
        let mut s = String::new();
        push_char(&mut s, digit_char_exec(n));
        proof {
            assert(s@ =~= dec_digits(n as int));
        }
        s
    } else {
        let mut s = u32_to_string(n / 10);
        push_char(&mut s, digit_char_exec(n % 10));
        proof {
            assert(s@ =~= dec_digits(n as int));
        }
        s
    }
}

/// An optional text, with the fixed placeholder substituted when it is
/// absent. The substitution happens only here, at the formatting boundary.
pub open spec fn opt_or_na(o: Option<Seq<char>>) -> Seq<char> {
    match o {
        Some(t) => t,
        None => "N/A"@,
    }
}

/// The success reply: seven lines, fixed labels, fixed order.
pub open spec fn render_text(p: ProfileSpec) -> Seq<char> {
    "GitHub User: "@ + p.login + "\nName: "@ + opt_or_na(p.name) + "\nBio: "@ + opt_or_na(p.bio)
        + "\nPublic Repos: "@ + dec_digits(p.public_repos as int) + "\nFollowers: "@ + dec_digits(
        p.followers as int,
    ) + "\nFollowing: "@ + dec_digits(p.following as int) + "\nProfile: "@ + p.html_url
}

fn append_opt_or_na(out: &mut String, o: &Option<String>)
    ensures
        final(out)@ == old(out)@ + opt_or_na(crate::profile::opt_view(*o)),
{
    match o {
        Some(t) => out.append(t.as_str()),
        None => out.append("N/A"),
    }
}

/// Renders a profile record into the seven-line summary.
pub fn render_profile(u: &GitHubUser) -> (r: String)
    ensures
        r@ == render_text(u@),
{
    let mut out = String::new();
    out.append("GitHub User: ");
    out.append(u.login.as_str());
    out.append("\nName: ");
    append_opt_or_na(&mut out, &u.name);
    out.append("\nBio: ");
    append_opt_or_na(&mut out, &u.bio);
    out.append("\nPublic Repos: ");
    let repos = u32_to_string(u.public_repos);
    out.append(repos.as_str());
    out.append("\nFollowers: ");
    let followers = u32_to_string(u.followers);
    out.append(followers.as_str());
    out.append("\nFollowing: ");
    let following = u32_to_string(u.following);
    out.append(following.as_str());
    out.append("\nProfile: ");
    out.append(u.html_url.as_str());
    proof {
        assert(out@ =~= render_text(u@));
    }
    out
}

/// The fixed reply for any retrieval failure: transport error, non-success
/// status, or an unparseable body.
pub open spec fn failed_text() -> Seq<char> {
    "Failed to fetch GitHub user information."@
}

/// The fixed reply when the invocation carries no usable username option.
pub open spec fn invalid_input_text() -> Seq<char> {
    "Invalid input. Please provide a GitHub username."@
}

pub fn fetch_failed_reply() -> (r: String)
    ensures
        r@ == failed_text(),
{
    String::from_str("Failed to fetch GitHub user information.")
}

pub fn invalid_input_reply() -> (r: String)
    ensures
        r@ == invalid_input_text(),
{
    String::from_str("Invalid input. Please provide a GitHub username.")
}

/// The request URL: the fixed base path with the username substituted
/// verbatim — no escaping is applied.
pub open spec fn url_of(username: Seq<char>) -> Seq<char> {
    "https://api.github.com/users/"@ + username
}

/// Builds the request URL for a username.
pub fn build_url(username: &str) -> (r: String)
    ensures
        r@ == url_of(username@),
{
    let mut out = String::from_str("https://api.github.com/users/");
    out.append(username);
    out
}

} // verus!
