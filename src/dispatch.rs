//! The command dispatcher: a table of (trigger, guard) pairs evaluated in
//! order against each message, the replies of the commands that need no
//! network, and the state of one message's handling.
//!
//! Every command whose trigger starts the message, and whose guard holds,
//! fires; one message may fire several. Each fired command gets exactly one
//! outcome and one delivery, whatever became of the others.
use vstd::prelude::*;
use crate::emoji::{distinct_glyphs, joined, join_glyphs, EmojiGenerator, ALPHABET_SIZE};
use crate::guysay::{cow_art, framed, say};
use crate::jokes::{joke_reply, joke_text, Joke, JokeError};
use crate::quotes::QuoteStore;
use crate::random::random_between;
use crate::text::{has_prefix, starts_with_text};

verus! {

#[derive(Debug, PartialEq, Eq, Structural, Clone, Copy)]
pub enum Command {
    Summon,
    Oracle,
    Joke,
    Health,
    GuySay,
    GaySay,
    Sprint,
    No,
    Breakfast,
    Pm,
    Qa,
    Abubakar,
    Biriyani,
    Failed,
    Talha,
    Jiggu,
}

pub open spec fn trigger_of(c: Command) -> Seq<char> {
    match c {
        Command::Summon => "!summon"@,
        Command::Oracle => "!oracle"@,
        Command::Joke => "!joke"@,
        Command::Health => "!health"@,
        Command::GuySay => "!guysay"@,
        Command::GaySay => "!gaysay"@,
        Command::Sprint => "!sprint"@,
        Command::No => "!no"@,
        Command::Breakfast => "!breakfast"@,
        Command::Pm => "!PM"@,
        Command::Qa => "!QA"@,
        Command::Abubakar => "!abubakar"@,
        Command::Biriyani => "!biriyani"@,
        Command::Failed => "!failed"@,
        Command::Talha => "!talha"@,
        Command::Jiggu => "!jiggu"@,
    }
}

/// The word that starts a message meant for `c`.
pub fn trigger_word(c: Command) -> (r: &'static str)
    ensures
        r@ == trigger_of(c),
{
    match c {
        Command::Summon => "!summon",
        Command::Oracle => "!oracle",
        Command::Joke => "!joke",
        Command::Health => "!health",
        Command::GuySay => "!guysay",
        Command::GaySay => "!gaysay",
        Command::Sprint => "!sprint",
        Command::No => "!no",
        Command::Breakfast => "!breakfast",
        Command::Pm => "!PM",
        Command::Qa => "!QA",
        Command::Abubakar => "!abubakar",
        Command::Biriyani => "!biriyani",
        Command::Failed => "!failed",
        Command::Talha => "!talha",
        Command::Jiggu => "!jiggu",
    }
}

/// The commands in the order they are evaluated.
pub open spec fn command_table() -> Seq<Command> {
    seq![
        Command::Summon,
        Command::Oracle,
        Command::Joke,
        Command::Health,
        Command::GuySay,
        Command::GaySay,
        Command::Sprint,
        Command::No,
        Command::Breakfast,
        Command::Pm,
        Command::Qa,
        Command::Abubakar,
        Command::Biriyani,
        Command::Failed,
        Command::Talha,
        Command::Jiggu,
    ]
}

pub fn commands() -> (r: Vec<Command>)
    ensures
        r@ == command_table(),
{
    let mut r: Vec<Command> = Vec::new();
    r.push(Command::Summon);
    r.push(Command::Oracle);
    r.push(Command::Joke);
    r.push(Command::Health);
    r.push(Command::GuySay);
    r.push(Command::GaySay);
    r.push(Command::Sprint);
    r.push(Command::No);
    r.push(Command::Breakfast);
    r.push(Command::Pm);
    r.push(Command::Qa);
    r.push(Command::Abubakar);
    r.push(Command::Biriyani);
    r.push(Command::Failed);
    r.push(Command::Talha);
    r.push(Command::Jiggu);
    assert(r@ =~= command_table());
    r
}

/// The guard beside the trigger: a summon must mention someone.
pub open spec fn guard_holds(c: Command, has_mentions: bool) -> bool {
    c == Command::Summon ==> has_mentions
}

/// `c` fires on a message with this text.
pub open spec fn fires(c: Command, content: Seq<char>, has_mentions: bool) -> bool {
    has_prefix(content, trigger_of(c)) && guard_holds(c, has_mentions)
}

/// The commands of `cmds` that fire, in their order.
pub open spec fn fired(cmds: Seq<Command>, content: Seq<char>, has_mentions: bool) -> Seq<Command>
    decreases cmds.len(),
{
    if cmds.len() == 0 {
        Seq::empty()
    } else {
        let init = fired(cmds.drop_last(), content, has_mentions);
        if fires(cmds.last(), content, has_mentions) {
            init.push(cmds.last())
        } else {
            init
        }
    }
}

pub fn command_fires(c: Command, content: &str, has_mentions: bool) -> (r: bool)
    ensures
        r == fires(c, content@, has_mentions),
{
    starts_with_text(content, trigger_word(c)) && (c != Command::Summon || has_mentions)
}

/// The commands that a message fires, in table order.
pub fn matching_commands(content: &str, has_mentions: bool) -> (r: Vec<Command>)
    ensures
        r@ == fired(command_table(), content@, has_mentions),
{
    let table = commands();
    let mut out: Vec<Command> = Vec::new();
    let mut i: usize = 0;
    while i < table.len()
        invariant
            table@ == command_table(),
            i <= table@.len(),
            out@ == fired(table@.take(i as int), content@, has_mentions),
        decreases table@.len() - i,
    {
        let c = table[i];
        assert(table@.take(i as int + 1).drop_last() =~= table@.take(i as int));
        if command_fires(c, content, has_mentions) {
            out.push(c);
        }
        i = i + 1;
    }
    assert(table@.take(table@.len() as int) =~= table@);
    out
}

/// A command is among those fired from `cmds` exactly when it is in `cmds`
/// and fires.
pub proof fn fired_contains(cmds: Seq<Command>, content: Seq<char>, has_mentions: bool, c: Command)
    requires
        cmds.no_duplicates(),
    ensures
        fired(cmds, content, has_mentions).contains(c) <==> (cmds.contains(c) && fires(
            c,
            content,
            has_mentions,
        )),
        fired(cmds, content, has_mentions).no_duplicates(),
    decreases cmds.len(),
{
    if cmds.len() > 0 {
        let init = cmds.drop_last();
        assert(init.no_duplicates());
        fired_contains(init, content, has_mentions, c);
        fired_contains(init, content, has_mentions, cmds.last());
        let f = fired(init, content, has_mentions);
        if cmds.contains(c) && c != cmds.last() {
            let k = choose|k: int| 0 <= k < cmds.len() && cmds[k] == c;
            assert(init[k] == c);
        }
        if init.contains(c) {
            let k = choose|k: int| 0 <= k < init.len() && init[k] == c;
            assert(cmds[k] == c);
        }
        if fires(cmds.last(), content, has_mentions) {
            assert(!init.contains(cmds.last()));
            assert(f.push(cmds.last())[f.len() as int] == cmds.last());
            if f.contains(c) {
                let k = choose|k: int| 0 <= k < f.len() && f[k] == c;
                assert(f.push(cmds.last())[k] == c);
            }
        }
        if cmds.last() == c {
            assert(cmds[cmds.len() - 1] == c);
        }
    }
}

/// Every command is in the table, once.
pub proof fn table_complete(c: Command)
    ensures
        command_table().contains(c),
        command_table().no_duplicates(),
{
    let t = command_table();
    match c {
        Command::Summon => assert(t[0] == c),
        Command::Oracle => assert(t[1] == c),
        Command::Joke => assert(t[2] == c),
        Command::Health => assert(t[3] == c),
        Command::GuySay => assert(t[4] == c),
        Command::GaySay => assert(t[5] == c),
        Command::Sprint => assert(t[6] == c),
        Command::No => assert(t[7] == c),
        Command::Breakfast => assert(t[8] == c),
        Command::Pm => assert(t[9] == c),
        Command::Qa => assert(t[10] == c),
        Command::Abubakar => assert(t[11] == c),
        Command::Biriyani => assert(t[12] == c),
        Command::Failed => assert(t[13] == c),
        Command::Talha => assert(t[14] == c),
        Command::Jiggu => assert(t[15] == c),
    }
}

/// A message on which two distinct commands fire is handled by both: each
/// is among the fired commands, at its own position.
pub proof fn both_fire(content: Seq<char>, has_mentions: bool, a: Command, b: Command)
    requires
        a != b,
        fires(a, content, has_mentions),
        fires(b, content, has_mentions),
    ensures
        fired(command_table(), content, has_mentions).contains(a),
        fired(command_table(), content, has_mentions).contains(b),
        fired(command_table(), content, has_mentions).no_duplicates(),
{
    table_complete(a);
    table_complete(b);
    fired_contains(command_table(), content, has_mentions, a);
    fired_contains(command_table(), content, has_mentions, b);
}

/// The fixed reply of a command that always answers the same.
pub open spec fn fixed_text(c: Command) -> Option<Seq<char>> {
    match c {
        Command::GaySay => Some("ব্রো, এসো তোমাকে ব্লেম দেই <3 "@),
        Command::Sprint => Some("Sprint in the AI world means, really fast."@),
        Command::No => Some(
            "The no word has deep philosophical meaning to me. It tells me that I can tell anyone, no. Nobody can stop me."@,
        ),
        Command::Breakfast => Some(
            "I had granola and corn flakes this breakfast, but decided to add AI on top of it anyway."@,
        ),
        Command::Pm => Some("LONG LIVE THE PM!"@),
        Command::Qa => Some("বাগ পাইসেন? আচ্ছা লিনিয়ারে টিকেট দেন। দেখতেসি বিষয়টা।"@),
        Command::Abubakar => Some("All I want for Eid is chunks!"@),
        Command::Biriyani => Some("🎭 💡 https://www.youtube.com/watch?v=xvFZjo5PgG0\n"@),
        Command::Failed => Some("Don't fix it just revert!"@),
        Command::Talha => Some("আপডেট ছাড়া আরেকবার ডাকলে বেতন 10% মাইনাস"@),
        Command::Jiggu => Some(
            "লোকে বলে আমি প্রোজেক্ট ম্যানেজার কিন্তু আমি আসলে আস্ত অপদার্থ, মুনিয়ার মা, প্লেটে আরো থ্যাপলা দাও, খাই।"@,
        ),
        _ => None,
    }
}

pub fn fixed_reply(c: Command) -> (r: Option<&'static str>)
    ensures
        r is None <==> fixed_text(c) is None,
        r matches Some(t) ==> fixed_text(c) == Some(t@),
{
    match c {
        Command::GaySay => Some("ব্রো, এসো তোমাকে ব্লেম দেই <3 "),
        Command::Sprint => Some("Sprint in the AI world means, really fast."),
        Command::No => Some(
            "The no word has deep philosophical meaning to me. It tells me that I can tell anyone, no. Nobody can stop me.",
        ),
        Command::Breakfast => Some(
            "I had granola and corn flakes this breakfast, but decided to add AI on top of it anyway.",
        ),
        Command::Pm => Some("LONG LIVE THE PM!"),
        Command::Qa => Some("বাগ পাইসেন? আচ্ছা লিনিয়ারে টিকেট দেন। দেখতেসি বিষয়টা।"),
        Command::Abubakar => Some("All I want for Eid is chunks!"),
        Command::Biriyani => Some("🎭 💡 https://www.youtube.com/watch?v=xvFZjo5PgG0\n"),
        Command::Failed => Some("Don't fix it just revert!"),
        Command::Talha => Some("আপডেট ছাড়া আরেকবার ডাকলে বেতন 10% মাইনাস"),
        Command::Jiggu => Some(
            "লোকে বলে আমি প্রোজেক্ট ম্যানেজার কিন্তু আমি আসলে আস্ত অপদার্থ, মুনিয়ার মা, প্লেটে আরো থ্যাপলা দাও, খাই।",
        ),
        _ => None,
    }
}

/// `s` is between `lo` and `hi` distinct glyphs, one space between neighbours.
pub open spec fn is_emoji_line(s: Seq<char>, lo: nat, hi: nat) -> bool {
    exists|gs: Seq<Seq<char>>| lo <= gs.len() <= hi && distinct_glyphs(gs) && s == joined(gs)
}

/// `n` distinct glyphs at random, one space between neighbours.
pub fn emoji_line(n: usize) -> (r: String)
    requires
        n <= ALPHABET_SIZE,
    ensures
        is_emoji_line(r@, n as nat, n as nat),
{
    let generator = EmojiGenerator::new();
    match generator.generate(n) {
        Ok(gs) => {
            let r = join_glyphs(&gs);
            assert(gs@.map_values(|g: String| g@).len() == n);
            r
        },
        Err(_) => String::new(),
    }
}

/// The reply to a summon: seven glyphs.
pub fn summon_reply() -> (r: String)
    ensures
        is_emoji_line(r@, 7, 7),
{
    emoji_line(7)
}

/// The reply to the oracle: between five and fifteen glyphs, as many as a
/// random draw says.
pub fn oracle_reply() -> (r: String)
    ensures
        is_emoji_line(r@, 5, 15),
{
    let n = random_between(5, 15);
    emoji_line(n)
}

/// The reply to a quote request when there is no quote to say.
pub open spec fn no_quote_text() -> Seq<char> {
    "No quote to say."@
}

/// `s` is the cow saying one of the quotes of `store`, inside a code block.
pub open spec fn is_said_quote(store: Seq<Seq<char>>, s: Seq<char>) -> bool {
    exists|i: int| 0 <= i < store.len() && s == framed(cow_art(#[trigger] store[i]), true)
}

/// The reply to a quote request.
pub fn guysay_reply(store: &QuoteStore) -> (r: String)
    ensures
        store@.len() == 0 ==> r@ == no_quote_text(),
        store@.len() > 0 && (forall|i: int|
            0 <= i < store@.len() ==> crate::text::words(#[trigger] store@[i]).len() > 0)
            ==> is_said_quote(store@, r@),
        r@ == no_quote_text() || is_said_quote(store@, r@),
{
    let quotes = store.quotes();
    proof {
        assert forall|i: int| 0 <= i < quotes@.len() implies (#[trigger] quotes@[i])@ == store@[i] by {
            assert(crate::quotes::texts(quotes@)[i] == quotes@[i]@);
        }
    }
    match say(quotes, true) {
        Some(s) => {
            proof {
                let i = choose|i: int|
                    0 <= i < quotes@.len() && s@ == framed(cow_art((#[trigger] quotes@[i])@), true);
                assert(s@ == framed(cow_art(store@[i]), true));
            }
            s
        },
        None => String::from_str("No quote to say."),
    }
}

/// The reply of a command that needs no network; `None` for the joke and the
/// health probe, whose replies come from a fetch.
pub fn local_reply(c: Command, store: &QuoteStore) -> (r: Option<String>)
    ensures
        r is None <==> (c == Command::Joke || c == Command::Health),
        fixed_text(c) matches Some(t) ==> (r matches Some(s) && s@ == t),
        c == Command::Summon ==> (r matches Some(s) && is_emoji_line(s@, 7, 7)),
        c == Command::Oracle ==> (r matches Some(s) && is_emoji_line(s@, 5, 15)),
        c == Command::GuySay ==> (r matches Some(s) && (s@ == no_quote_text() || is_said_quote(
            store@,
            s@,
        ))),
{
    match c {
        Command::Summon => Some(summon_reply()),
        Command::Oracle => Some(oracle_reply()),
        Command::Joke => None,
        Command::Health => None,
        Command::GuySay => Some(guysay_reply(store)),
        _ => match fixed_reply(c) {
            Some(t) => Some(String::from_str(t)),
            None => None,
        },
    }
}

/// What became of a fired command's work.
pub enum Outcome {
    /// The text to send.
    Reply(String),
    /// The work failed (a transport error, say); the failure is logged and
    /// nothing is sent.
    Failed,
}

/// What the handler does for one fired command.
pub enum Delivery {
    Send(String),
    LogFailure(Command),
}

pub open spec fn delivery_of(c: Command, o: Outcome) -> Delivery {
    match o {
        Outcome::Reply(s) => Delivery::Send(s),
        Outcome::Failed => Delivery::LogFailure(c),
    }
}

/// One step of a message's handling: the pending commands and the position
/// of the next one, and an outcome for it.
pub open spec fn step(s: (Seq<Command>, nat), o: Outcome) -> ((Seq<Command>, nat), Option<Delivery>) {
    if s.1 < s.0.len() {
        ((s.0, s.1 + 1), Some(delivery_of(s.0[s.1 as int], o)))
    } else {
        (s, None)
    }
}

/// The state after handing over `outs` one by one, and what each step gave.
pub open spec fn run(s: (Seq<Command>, nat), outs: Seq<Outcome>) -> ((Seq<Command>, nat), Seq<Option<Delivery>>)
    decreases outs.len(),
{
    if outs.len() == 0 {
        (s, Seq::empty())
    } else {
        let (mid, ds) = run(s, outs.drop_last());
        let (last, d) = step(mid, outs.last());
        (last, ds.push(d))
    }
}

/// Handing one outcome per fired command, in order, delivers for every
/// command exactly what its own outcome says, whatever the other outcomes
/// were; a failed one is logged, and the next is still handled.
pub proof fn outcomes_independent(cmds: Seq<Command>, outs: Seq<Outcome>)
    requires
        outs.len() <= cmds.len(),
    ensures
        run((cmds, 0), outs).0 == (cmds, outs.len()),
        run((cmds, 0), outs).1.len() == outs.len(),
        forall|j: int| 0 <= j < outs.len() ==> #[trigger] run((cmds, 0), outs).1[j] == Some(
            delivery_of(cmds[j], outs[j]),
        ),
    decreases outs.len(),
{
    if outs.len() > 0 {
        let init = outs.drop_last();
        outcomes_independent(cmds, init);
        let (mid, ds) = run((cmds, 0), init);
        assert forall|j: int| 0 <= j < outs.len() implies #[trigger] run((cmds, 0), outs).1[j] == Some(
            delivery_of(cmds[j], outs[j]),
        ) by {
            if j < init.len() {
                assert(ds[j] == Some(delivery_of(cmds[j], init[j])));
                assert(init[j] == outs[j]);
            }
        }
    }
}

/// The outcome of the joke command from what the fetch came to: the first
/// joke, or a failure.
pub fn joke_outcome(fetched: &Result<Vec<Joke>, JokeError>) -> (r: Outcome)
    ensures
        fetched matches Ok(js) ==> (if js@.len() > 0 {
            r matches Outcome::Reply(s) && s@ == joke_text(js@[0])
        } else {
            r is Failed
        }),
        fetched is Err ==> r is Failed,
{
    match fetched {
        Ok(js) => match joke_reply(js) {
            Some(s) => Outcome::Reply(s),
            None => Outcome::Failed,
        },
        Err(_) => Outcome::Failed,
    }
}

/// The handling of one message: the commands it fired, and how many of them
/// have had their outcome.
pub struct Dispatch {
    pending: Vec<Command>,
    next: usize,
}

impl View for Dispatch {
    type V = (Seq<Command>, nat);

    closed spec fn view(&self) -> (Seq<Command>, nat) {
        (self.pending@, self.next as nat)
    }
}

impl Dispatch {
    pub closed spec fn wf(&self) -> bool {
        self.next <= self.pending@.len()
    }

    /// The handling of a message with this text, before any command's work.
    pub fn start(content: &str, has_mentions: bool) -> (r: Dispatch)
        ensures
            r.wf(),
            r@ == (fired(command_table(), content@, has_mentions), 0nat),
    {
        Dispatch { pending: matching_commands(content, has_mentions), next: 0 }
    }

    /// The command whose outcome is awaited next; `None` once all have theirs.
    pub fn pending(&self) -> (r: Option<Command>)
        requires
            self.wf(),
        ensures
            self@.1 < self@.0.len() ==> r == Some(self@.0[self@.1 as int]),
            self@.1 >= self@.0.len() ==> r is None,
    {
        if self.next < self.pending.len() {
            Some(self.pending[self.next])
        } else {
            None
        }
    }

    /// Hands over the outcome of the pending command and says what to do
    /// with it; `None`, and no change, when no command is pending.
    pub fn settle(&mut self, outcome: Outcome) -> (r: Option<Delivery>)
        requires
            old(self).wf(),
        ensures
            final(self).wf(),
            (final(self)@, r) == step(old(self)@, outcome),
    {
        if self.next < self.pending.len() {
            let c = self.pending[self.next];
            self.next = self.next + 1;
            match outcome {
                Outcome::Reply(s) => Some(Delivery::Send(s)),
                Outcome::Failed => Some(Delivery::LogFailure(c)),
            }
        } else {
            None
        }
    }
}

} // verus!
