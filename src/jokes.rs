//! Jokes: what a fetch from the joke API comes to, and the reply sent for it.
//! The request itself is made by the caller.
use vstd::prelude::*;

verus! {

#[verifier::external_type_specification]
#[verifier::external_body]
pub struct ExReqwestError(reqwest::Error);

pub struct Joke {
    pub id: usize,
    pub category: String,
    pub setup: String,
    pub punchline: String,
}

/// Why a fetch failed: the transport, or a status outside the 2xx range, or a
/// body that is not a list of jokes.
pub enum JokeError {
    Request(reqwest::Error),
}

/// The text of the joke served when the API has none.
pub open spec fn default_text() -> Seq<char> {
    "জোক পাইতেসি না, সব ফ্রন্টএন্ডের দোষ! 😤"@
}

pub open spec fn is_default_joke(j: Joke) -> bool {
    &&& j.id == 0
    &&& j.category@ == "default"@
    &&& j.setup@ == default_text()
    &&& j.punchline@ == default_text()
}

pub fn default_joke() -> (r: Joke)
    ensures
        is_default_joke(r),
{
    Joke {
        id: 0,
        category: String::from_str("default"),
        setup: String::from_str("জোক পাইতেসি না, সব ফ্রন্টএন্ডের দোষ! 😤"),
        punchline: String::from_str("জোক পাইতেসি না, সব ফ্রন্টএন্ডের দোষ! 😤"),
    }
}

/// The jokes as the API sent them, or the default joke alone for an empty list.
pub fn with_default(jokes: Vec<Joke>) -> (r: Vec<Joke>)
    ensures
        jokes@.len() == 0 ==> r@.len() == 1 && is_default_joke(r@[0]),
        jokes@.len() > 0 ==> r@ == jokes@,
{
    if jokes.len() == 0 {
        let mut r: Vec<Joke> = Vec::new();
        r.push(default_joke());
        r
    } else {
        jokes
    }
}

/// What a fetch comes to: its error kept as a request error, or its jokes
/// with the default for an empty list.
pub fn settle_jokes(fetched: Result<Vec<Joke>, reqwest::Error>) -> (r: Result<Vec<Joke>, JokeError>)
    ensures
        fetched is Ok <==> r is Ok,
        fetched matches Ok(js) ==> (r matches Ok(v) && (js@.len() == 0 ==> v@.len() == 1
            && is_default_joke(v@[0])) && (js@.len() > 0 ==> v@ == js@)),
        fetched matches Err(e) ==> (r matches Err(JokeError::Request(e2)) && e2 == e),
{
    match fetched {
        Ok(js) => Ok(with_default(js)),
        Err(e) => Err(JokeError::Request(e)),
    }
}

/// The reply for a joke: its setup in bold, its punchline in italics.
pub open spec fn joke_text(j: Joke) -> Seq<char> {
    "🎭 **"@ + j.setup@ + "**\n💡 _"@ + j.punchline@ + "_"@
}

/// The reply for the first of the jokes; `None` when there is none.
pub fn joke_reply(jokes: &Vec<Joke>) -> (r: Option<String>)
    ensures
        jokes@.len() == 0 <==> r is None,
        r matches Some(s) ==> s@ == joke_text(jokes@[0]),
{
    if jokes.len() == 0 {
        return None;
    }
    let j = &jokes[0];
    let mut out = String::from_str("🎭 **");
    out.append(j.setup.as_str());
    out.append("**\n💡 _");
    out.append(j.punchline.as_str());
    out.append("_");
    Some(out)
}

} // verus!
