//! The health prober's decisions. A probe reads `!health <service> <environment>`,
//! looks up `<SERVICE>_<ENVIRONMENT>_URL` in the configuration, fetches that URL
//! and judges the reply. The lookup and the fetch are done by the caller; every
//! step between them is here.
use vstd::prelude::*;
use crate::text::{is_ok_status, is_ok_word, split_words, to_upper, upper_of, words};
use crate::random::random_between;

verus! {

/// The canned replies to a malformed health request.
pub open spec fn funny_lines() -> Seq<Seq<char>> {
    seq![
        "এই মেসেজ কেডায় দিসে? 🤬"@,
        "আর কাম কাজ নাই? 🥴"@,
        "পুৎ কইরা দিমু 😈"@,
        "স্বজন হারানোর বেদনা আমিও বুঝি 😭"@,
        "আহো ভাতিজা আহো 😈"@,
        "আমি জুনায়েদ 😇"@,
        "সাগর, তুমি ভালো হয়ে যাও, মাসুদ হয়নি, তুমি হউ। 🥸"@,
        "ইংরেজিতে যেহেতু বুইলছেন, ঠিকই হবে! 🤓"@,
        "চ্যালেঞ্জিং টাইমস! 😎"@,
        "১০% নিয়া গেলো লন্ডনের ই বাসে রে, মরার কোকিলে! 🐦‍⬛"@,
    ]
}

pub open spec fn is_funny_line(t: Seq<char>) -> bool {
    exists|i: int| 0 <= i < funny_lines().len() && funny_lines()[i] == t
}

/// The canned reply at position `i`.
pub fn funny_line(i: usize) -> (r: String)
    requires
        i < 10,
    ensures
        r@ == funny_lines()[i as int],
{
    let t = match i {
        0 => "এই মেসেজ কেডায় দিসে? 🤬",
        1 => "আর কাম কাজ নাই? 🥴",
        2 => "পুৎ কইরা দিমু 😈",
        3 => "স্বজন হারানোর বেদনা আমিও বুঝি 😭",
        4 => "আহো ভাতিজা আহো 😈",
        5 => "আমি জুনায়েদ 😇",
        6 => "সাগর, তুমি ভালো হয়ে যাও, মাসুদ হয়নি, তুমি হউ। 🥸",
        7 => "ইংরেজিতে যেহেতু বুইলছেন, ঠিকই হবে! 🤓",
        8 => "চ্যালেঞ্জিং টাইমস! 😎",
        _ => "১০% নিয়া গেলো লন্ডনের ই বাসে রে, মরার কোকিলে! 🐦‍⬛",
    };
    String::from_str(t)
}

/// One of the canned replies, picked at random.
pub fn send_funny() -> (r: String)
    ensures
        is_funny_line(r@),
{
    let i = random_between(0, 9);
    let r = funny_line(i);
    assert(funny_lines()[i as int] == r@);
    r
}

/// The service and environment named by a health request.
pub struct ParsedData {
    pub service: String,
    pub environment: String,
}

/// Splits `!health <service> <environment>`; any other number of words gets
/// a canned reply.
pub fn parse_message(message: &str) -> (r: Result<ParsedData, String>)
    ensures
        r is Ok <==> words(message@).len() == 3,
        r matches Ok(p) ==> p.service@ == words(message@)[1] && p.environment@ == words(
            message@,
        )[2],
        r matches Err(e) ==> is_funny_line(e@),
{
    let mut parts = split_words(message);
    if parts.len() != 3 {
        return Err(send_funny());
    }
    let environment = parts.pop().unwrap();
    let service = parts.pop().unwrap();
    Ok(ParsedData { service, environment })
}

/// A status that reads "ok" in any letter case is an ok word, which `judge`
/// turns into a healthy verdict.
pub proof fn ok_in_any_case(a: char, b: char)
    requires
        a == 'o' || a == 'O',
        b == 'k' || b == 'K',
    ensures
        is_ok_word(seq![a, b]),
{
}

/// The configuration key that holds the URL of a service in an environment.
pub open spec fn key_of(service: Seq<char>, environment: Seq<char>) -> Seq<char> {
    upper_of(service) + "_"@ + upper_of(environment) + "_URL"@
}

pub fn config_key(service: &str, environment: &str) -> (r: String)
    ensures
        r@ == key_of(service@, environment@),
{
    let mut key = to_upper(service);
    key.append("_");
    let upper_env = to_upper(environment);
    key.append(upper_env.as_str());
    key.append("_URL");
    key
}

/// The health report for a service in an environment whose endpoint answered
/// with `status`.
pub open spec fn response_text(service: Seq<char>, environment: Seq<char>, status: Seq<char>) -> Seq<
    char,
> {
    let ok = is_ok_word(status);
    "```\n"@ + (if ok {
        "🚀 | Service Healthy"@
    } else {
        "⚠️ | Service Down"@
    }) + "\n\n"@ + service + " has been checked\n\nEnvironment          Status\n"@ + environment
        + "                 "@ + upper_of(status) + "\n\nHealth Check\n"@ + (if ok {
        "✅ Healthy"@
    } else {
        "❌ Unhealthy"@
    }) + "\n```"@
}

pub fn format_response(service: &str, environment: &str, status: &str) -> (r: String)
    ensures
        r@ == response_text(service@, environment@, status@),
{
    let ok = is_ok_status(status);
    let mut out = String::from_str("```\n");
    if ok {
        out.append("🚀 | Service Healthy");
    } else {
        out.append("⚠️ | Service Down");
    }
    out.append("\n\n");
    out.append(service);
    out.append(" has been checked\n\nEnvironment          Status\n");
    out.append(environment);
    out.append("                 ");
    let upper_status = to_upper(status);
    out.append(upper_status.as_str());
    out.append("\n\nHealth Check\n");
    if ok {
        out.append("✅ Healthy");
    } else {
        out.append("❌ Unhealthy");
    }
    out.append("\n```");
    out
}

/// A probe whose request was understood: what to look up, and for whom.
pub struct Target {
    pub service: String,
    pub environment: String,
    pub key: String,
}

/// The first step of a probe: the target of a request, or the reply to a
/// malformed one.
pub fn plan_probe(message: &str) -> (r: Result<Target, String>)
    ensures
        r is Ok <==> words(message@).len() == 3,
        r matches Ok(t) ==> {
            &&& t.service@ == words(message@)[1]
            &&& t.environment@ == words(message@)[2]
            &&& t.key@ == key_of(words(message@)[1], words(message@)[2])
        },
        r matches Err(e) ==> is_funny_line(e@),
{
    match parse_message(message) {
        Ok(p) => {
            let key = config_key(p.service.as_str(), p.environment.as_str());
            Ok(Target { service: p.service, environment: p.environment, key })
        },
        Err(e) => Err(e),
    }
}

/// What an endpoint answered, as plain values.
pub struct HttpReply {
    /// The status code is in the 2xx range.
    pub success: bool,
    /// The status code and its reason, as in `500 Internal Server Error`.
    pub status_line: String,
    /// The `status` field of the body read as a JSON object, if it reads so.
    pub json_status: Option<String>,
}

/// The outcome of one probe.
pub enum Verdict {
    Healthy { service: String, environment: String, status: String },
    Unhealthy { service: String, environment: String, status: String },
    ResolutionFailed { service: String, environment: String, key: String },
    MalformedResponse,
}

/// The second step: the URL to fetch, or the verdict that the configuration
/// names none for the target.
pub fn on_lookup(target: Target, url: Option<String>) -> (r: Result<(Target, String), Verdict>)
    ensures
        url is Some <==> r is Ok,
        r matches Ok((t, u)) ==> t == target && url == Some(u),
        r matches Err(v) ==> (v matches Verdict::ResolutionFailed { service, environment, key }
            && service@ == target.service@ && environment@ == target.environment@ && key@
            == target.key@),
{
    match url {
        Some(u) => Ok((target, u)),
        None => Err(
            Verdict::ResolutionFailed {
                service: target.service,
                environment: target.environment,
                key: target.key,
            },
        ),
    }
}

/// The last step: the verdict on what the endpoint answered.
pub fn judge(target: Target, reply: HttpReply) -> (r: Verdict)
    ensures
        !reply.success ==> (r matches Verdict::Unhealthy { service, environment, status }
            && service@ == target.service@ && environment@ == target.environment@ && status@
            == reply.status_line@),
        reply.success && reply.json_status is None ==> r is MalformedResponse,
        reply.success ==> (reply.json_status matches Some(st) ==> (if is_ok_word(st@) {
            r matches Verdict::Healthy { service, environment, status } && service@
                == target.service@ && environment@ == target.environment@ && status@ == st@
        } else {
            r matches Verdict::Unhealthy { service, environment, status } && service@
                == target.service@ && environment@ == target.environment@ && status@ == st@
        })),
{
    if !reply.success {
        return Verdict::Unhealthy {
            service: target.service,
            environment: target.environment,
            status: reply.status_line,
        };
    }
    match reply.json_status {
        None => Verdict::MalformedResponse,
        Some(st) => {
            if is_ok_status(st.as_str()) {
                Verdict::Healthy {
                    service: target.service,
                    environment: target.environment,
                    status: st,
                }
            } else {
                Verdict::Unhealthy {
                    service: target.service,
                    environment: target.environment,
                    status: st,
                }
            }
        },
    }
}

/// The reply when the configuration holds no URL under `key`.
pub open spec fn not_found_text(key: Seq<char>) -> Seq<char> {
    "এই এন্ডপয়েন্টের কোন হদিস পাইলাম না! 😅 ("@ + key + ")"@
}

/// The text sent to the channel for a verdict.
pub open spec fn verdict_text(v: Verdict) -> Seq<char> {
    match v {
        Verdict::Healthy { service, environment, status } => response_text(
            service@,
            environment@,
            status@,
        ),
        Verdict::Unhealthy { service, environment, status } => response_text(
            service@,
            environment@,
            status@,
        ),
        Verdict::ResolutionFailed { key, .. } => not_found_text(key@),
        Verdict::MalformedResponse => "Invalid JSON response from the endpoint"@,
    }
}

pub fn render(v: &Verdict) -> (r: String)
    ensures
        r@ == verdict_text(*v),
{
    match v {
        Verdict::Healthy { service, environment, status } => format_response(
            service.as_str(),
            environment.as_str(),
            status.as_str(),
        ),
        Verdict::Unhealthy { service, environment, status } => format_response(
            service.as_str(),
            environment.as_str(),
            status.as_str(),
        ),
        Verdict::ResolutionFailed { key, .. } => {
            let mut out = String::from_str("এই এন্ডপয়েন্টের কোন হদিস পাইলাম না! 😅 (");
            out.append(key.as_str());
            out.append(")");
            out
        },
        Verdict::MalformedResponse => String::from_str("Invalid JSON response from the endpoint"),
    }
}

} // verus!
