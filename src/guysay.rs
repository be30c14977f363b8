//! A random quote in a cow's speech bubble.
use vstd::prelude::*;
use crate::quotes::pick_random_quote;
use crate::text::{split_words, words};

verus! {

/// What `fcowsay::animalsay` draws for a message said by the cow.
pub uninterp spec fn cow_art(message: Seq<char>) -> Seq<char>;

/// Relies on `fcowsay::animalsay` with the cow: the drawing depends on the
/// message alone. It panics on a message without words (its border would
/// have a negative width).
#[verifier::external_body]
fn cowsay(message: &str) -> (r: String)
    requires
        words(message@).len() > 0,
    ensures
        r@ == cow_art(message@),
{
    fcowsay::animalsay(message, "cow")
}

/// The drawing as sent: inside a `bash` code block, or bare.
pub open spec fn framed(art: Seq<char>, bash_format: bool) -> Seq<char> {
    if bash_format {
        "```bash\n"@ + art + "\n```"@
    } else {
        art
    }
}

pub fn frame(art: String, bash_format: bool) -> (r: String)
    ensures
        r@ == framed(art@, bash_format),
{
    if bash_format {
        let mut out = String::from_str("```bash\n");
        out.append(art.as_str());
        out.append("\n```");
        out
    } else {
        art
    }
}

/// The cow saying `quote`; `None` for a quote without words.
pub fn say_quote(quote: &str, bash_format: bool) -> (r: Option<String>)
    ensures
        r is Some <==> words(quote@).len() > 0,
        r matches Some(s) ==> s@ == framed(cow_art(quote@), bash_format),
{
    let ws = split_words(quote);
    if ws.len() == 0 {
        None
    } else {
        Some(frame(cowsay(quote), bash_format))
    }
}

/// The cow saying one of the quotes, picked at random; `None` when there is
/// none, or when the one picked has no words.
pub fn say(quotes: &[String], bash_format: bool) -> (r: Option<String>)
    ensures
        quotes@.len() == 0 ==> r is None,
        quotes@.len() > 0 && (forall|i: int|
            0 <= i < quotes@.len() ==> words((#[trigger] quotes@[i])@).len() > 0) ==> r is Some,
        r matches Some(s) ==> exists|i: int|
            0 <= i < quotes@.len() && s@ == framed(cow_art((#[trigger] quotes@[i])@), bash_format),
{
    match pick_random_quote(quotes) {
        None => None,
        Some(q) => {
            let r = say_quote(q.as_str(), bash_format);
            proof {
                let i = choose|i: int| 0 <= i < quotes@.len() && q@ == (#[trigger] quotes@[i])@;
                assert(quotes@[i]@ == q@);
            }
            r
        },
    }
}

} // verus!
