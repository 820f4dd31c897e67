//! What the host reports when a component tries to reach a network destination
//! that its manifest does not allow.
use vstd::prelude::*;
use crate::text::{seq_contains_segment, seq_starts_with, starts_with, str_eq};

verus! {

/// The host pattern of a destination: `scheme://authority`.
pub open spec fn host_pattern_spec(scheme: Seq<char>, authority: Seq<char>) -> Seq<char> {
    scheme + "://"@ + authority
}

/// A request from a component to its own application: an `http…` scheme whose
/// authority is `self`.
pub open spec fn is_own_app_request_spec(scheme: Seq<char>, authority: Seq<char>) -> bool {
    seq_starts_with(scheme, "http"@) && authority == "self"@
}

/// The line logged as an error for a refused destination.
pub open spec fn log_message_spec(pattern: Seq<char>) -> Seq<char> {
    "Outbound network destination not allowed: "@ + pattern
}

/// The warning shown to the user for a refused destination.
pub open spec fn warning_spec(scheme: Seq<char>, authority: Seq<char>) -> Seq<char> {
    if is_own_app_request_spec(scheme, authority) {
        "A component tried to make an HTTP request to its own app but it does not have permission."@
    } else {
        "A component tried to make an outbound network connection to disallowed destination '"@
            + host_pattern_spec(scheme, authority) + "'."@
    }
}

/// The advice that tells the user how to allow the destination.
pub open spec fn hint_spec(pattern: Seq<char>) -> Seq<char> {
    "To allow this request, add 'allowed_outbound_hosts = [\""@ + pattern
        + "\"]' to the manifest component section."@
}

/// Everything the host says about one refused destination.
#[derive(Debug, Clone)]
pub struct DisallowedHostReport {
    /// `scheme://authority`
    pub host_pattern: String,
    /// The line that goes to the error log.
    pub log_message: String,
    /// The warning shown on the terminal.
    pub warning: String,
    /// How to allow the destination in the manifest.
    pub hint: String,
}

/// Builds `scheme://authority`.
pub fn host_pattern(scheme: &str, authority: &str) -> (r: String)
    ensures
        r@ == host_pattern_spec(scheme@, authority@),
        r@ == scheme@ + "://"@ + authority@,
{
    let mut r = String::from_str(scheme);
    r.append("://");
    r.append(authority);
    r
}

/// Whether the refused request was one from a component to its own application.
pub fn is_own_app_request(scheme: &str, authority: &str) -> (r: bool)
    ensures
        r == is_own_app_request_spec(scheme@, authority@),
        r == (scheme@.len() >= 4 && scheme@.subrange(0, 4) == "http"@ && authority@ == "self"@),
{
    proof {
        lemma_own_app_exactly(scheme@, authority@);
    }
    starts_with(scheme, "http") && str_eq(authority, "self")
}

/// The report for a destination `scheme://authority` that a component may not reach.
pub fn disallowed_host_report(scheme: &str, authority: &str) -> (r: DisallowedHostReport)
    ensures
        r.host_pattern@ == host_pattern_spec(scheme@, authority@),
        r.log_message@ == log_message_spec(host_pattern_spec(scheme@, authority@)),
        r.warning@ == warning_spec(scheme@, authority@),
        r.hint@ == hint_spec(host_pattern_spec(scheme@, authority@)),
        r.host_pattern@ == scheme@ + "://"@ + authority@,
        r.log_message@ == "Outbound network destination not allowed: "@ + scheme@ + "://"@ + authority@,
        r.hint@ == "To allow this request, add 'allowed_outbound_hosts = [\""@ + scheme@ + "://"@
            + authority@ + "\"]' to the manifest component section."@,
        is_own_app_request_spec(scheme@, authority@) ==> r.warning@
            == "A component tried to make an HTTP request to its own app but it does not have permission."@,
        !is_own_app_request_spec(scheme@, authority@) ==> r.warning@
            == "A component tried to make an outbound network connection to disallowed destination '"@
            + scheme@ + "://"@ + authority@ + "'."@,
{
    let pattern = host_pattern(scheme, authority);
    let mut log_message = String::from_str("Outbound network destination not allowed: ");
    log_message.append(pattern.as_str());
    let warning = if is_own_app_request(scheme, authority) {
        String::from_str(
            "A component tried to make an HTTP request to its own app but it does not have permission.",
        )
    } else {
        let mut w = String::from_str(
            "A component tried to make an outbound network connection to disallowed destination '",
        );
        w.append(pattern.as_str());
        w.append("'.");
        w
    };
    let mut hint = String::from_str("To allow this request, add 'allowed_outbound_hosts = [\"");
    hint.append(pattern.as_str());
    hint.append("\"]' to the manifest component section.");
    proof {
        lemma_pattern_is_joined(scheme@, authority@);
        lemma_log_and_hint_frame(scheme@, authority@);
        lemma_warning_exact(scheme@, authority@);
    }
    DisallowedHostReport { host_pattern: pattern, log_message, warning, hint }
}

/// The host pattern of any destination is its scheme as given, then `://`, then
/// its authority as given: nothing is rewritten, and the pattern begins with the
/// scheme and ends with the authority.
pub proof fn lemma_pattern_is_joined(scheme: Seq<char>, authority: Seq<char>)
    ensures
        host_pattern_spec(scheme, authority) == scheme + "://"@ + authority,
        host_pattern_spec(scheme, authority).len() == scheme.len() + 3 + authority.len(),
        host_pattern_spec(scheme, authority).subrange(0, scheme.len() as int) == scheme,
        host_pattern_spec(scheme, authority).subrange(
            (scheme.len() + 3) as int,
            host_pattern_spec(scheme, authority).len() as int,
        ) == authority,
{
    reveal_strlit("://");
    let p = scheme + "://"@ + authority;
    assert(p.subrange(0, scheme.len() as int) =~= scheme);
    assert(p.subrange((scheme.len() + 3) as int, p.len() as int) =~= authority);
}

/// A refused request counts as one to the component's own application exactly
/// when the scheme's first four characters are `http` and the authority is
/// `self`; a scheme that does not begin with `http`, or any other authority,
/// never does.
pub proof fn lemma_own_app_exactly(scheme: Seq<char>, authority: Seq<char>)
    ensures
        is_own_app_request_spec(scheme, authority) <==> (scheme.len() >= 4 && scheme.subrange(0, 4)
            == "http"@ && authority == "self"@),
        !seq_starts_with(scheme, "http"@) ==> !is_own_app_request_spec(scheme, authority),
        authority != "self"@ ==> !is_own_app_request_spec(scheme, authority),
{
    reveal_strlit("http");
}

/// The logged line and the advice are fixed frames around the pattern
/// `scheme://authority`: the advice always names the `allowed_outbound_hosts`
/// key, whatever the destination.
pub proof fn lemma_log_and_hint_frame(scheme: Seq<char>, authority: Seq<char>)
    ensures
        log_message_spec(host_pattern_spec(scheme, authority))
            == "Outbound network destination not allowed: "@ + scheme + "://"@ + authority,
        hint_spec(host_pattern_spec(scheme, authority))
            == "To allow this request, add 'allowed_outbound_hosts = [\""@ + scheme + "://"@ + authority
            + "\"]' to the manifest component section."@,
        forall|p: Seq<char>| #[trigger] hint_spec(p)
            == "To allow this request, add 'allowed_outbound_hosts = [\""@ + p
            + "\"]' to the manifest component section."@,
        forall|p: Seq<char>| #[trigger] log_message_spec(p)
            == "Outbound network destination not allowed: "@ + p,
{
    let p = scheme + "://"@ + authority;
    assert("Outbound network destination not allowed: "@ + p =~= "Outbound network destination not allowed: "@
        + scheme + "://"@ + authority);
    assert("To allow this request, add 'allowed_outbound_hosts = [\""@ + p
        + "\"]' to the manifest component section."@ =~= "To allow this request, add 'allowed_outbound_hosts = [\""@
        + scheme + "://"@ + authority + "\"]' to the manifest component section."@);
}

/// The warning is the own-application message exactly for own-application
/// requests; for every other destination it is the disallowed-destination
/// message around `scheme://authority`, with nothing else added.
pub proof fn lemma_warning_exact(scheme: Seq<char>, authority: Seq<char>)
    ensures
        is_own_app_request_spec(scheme, authority) ==> warning_spec(scheme, authority)
            == "A component tried to make an HTTP request to its own app but it does not have permission."@,
        !is_own_app_request_spec(scheme, authority) ==> warning_spec(scheme, authority)
            == "A component tried to make an outbound network connection to disallowed destination '"@
            + scheme + "://"@ + authority + "'."@,
        !(scheme.len() >= 4 && scheme.subrange(0, 4) == "http"@ && authority == "self"@)
            ==> warning_spec(scheme, authority)
            == "A component tried to make an outbound network connection to disallowed destination '"@
            + scheme + "://"@ + authority + "'."@,
{
    lemma_own_app_exactly(scheme, authority);
    let pre = "A component tried to make an outbound network connection to disallowed destination '"@;
    assert(pre + (scheme + "://"@ + authority) + "'."@ =~= pre + scheme + "://"@ + authority + "'."@);
}

/// `a + part + b` holds `part` as a segment, found right after `a`.
proof fn lemma_segment_between(a: Seq<char>, part: Seq<char>, b: Seq<char>)
    ensures
        seq_contains_segment(a + part + b, part),
{
    let s = a + part + b;
    assert(s.subrange(a.len() as int, (a.len() + part.len()) as int) =~= part);
}

/// Every report names the refused destination: the logged line and the advice
/// both hold `scheme://authority`, and so does the warning unless the request was
/// one to the component's own application.
pub proof fn lemma_report_names_destination(scheme: Seq<char>, authority: Seq<char>)
    ensures
        seq_contains_segment(
            log_message_spec(host_pattern_spec(scheme, authority)),
            host_pattern_spec(scheme, authority),
        ),
        seq_contains_segment(
            hint_spec(host_pattern_spec(scheme, authority)),
            host_pattern_spec(scheme, authority),
        ),
        !is_own_app_request_spec(scheme, authority) ==> seq_contains_segment(
            warning_spec(scheme, authority),
            host_pattern_spec(scheme, authority),
        ),
{
    let p = host_pattern_spec(scheme, authority);
    let pre = "Outbound network destination not allowed: "@;
    lemma_segment_between(pre, p, Seq::<char>::empty());
    assert(pre + p + Seq::<char>::empty() =~= log_message_spec(p));
    lemma_segment_between(
        "To allow this request, add 'allowed_outbound_hosts = [\""@,
        p,
        "\"]' to the manifest component section."@,
    );
    lemma_segment_between(
        "A component tried to make an outbound network connection to disallowed destination '"@,
        p,
        "'."@,
    );
}

/// The own-application warning is given exactly for requests whose scheme starts
/// with `http` and whose authority is `self`; the pattern of such a request ends
/// in `://self`.
pub proof fn lemma_own_app_warning(scheme: Seq<char>, authority: Seq<char>)
    ensures
        warning_spec(scheme, authority)
            == "A component tried to make an HTTP request to its own app but it does not have permission."@
            <== is_own_app_request_spec(scheme, authority),
        is_own_app_request_spec(scheme, authority) ==> host_pattern_spec(scheme, authority)
            == scheme + "://self"@,
{
    if is_own_app_request_spec(scheme, authority) {
        reveal_strlit("://");
        reveal_strlit("self");
        reveal_strlit("://self");
        assert(host_pattern_spec(scheme, authority) =~= scheme + "://self"@);
    }
}

} // verus!
