//! The messages the driver reports, with their level and the colours of
//! their parts; how they are shown is left to the program that prints them.

use vstd::prelude::*;

use crate::text::{concat, decimal, decimal_text};

verus! {

/// How important a message is.
#[derive(PartialEq, Eq, Structural, Clone, Copy, Debug)]
pub enum Level {
    Error,
    Warn,
    Info,
    Debug,
}

/// The colour a part of a message is shown in.
#[derive(PartialEq, Eq, Structural, Clone, Copy, Debug)]
pub enum Tint {
    Plain,
    Green,
    Yellow,
    Blue,
}

/// A part of a message in one colour.
pub struct Span {
    pub text: String,
    pub tint: Tint,
}

/// A message: its level and its parts, in order.
pub struct LogLine {
    pub level: Level,
    pub spans: Vec<Span>,
}

impl View for LogLine {
    type V = (Level, Seq<(Seq<char>, Tint)>);

    open spec fn view(&self) -> (Level, Seq<(Seq<char>, Tint)>) {
        (self.level, self.spans@.map_values(|s: Span| (s.text@, s.tint)))
    }
}

/// The text of a sequence of parts, without colours.
pub open spec fn spans_text(spans: Seq<(Seq<char>, Tint)>) -> Seq<char>
    decreases spans.len(),
{
    if spans.len() == 0 {
        Seq::empty()
    } else {
        spans_text(spans.drop_last()) + spans.last().0
    }
}

fn line1(level: Level, text: String, tint: Tint) -> (l: LogLine)
    ensures
        l@ == (level, seq![(text@, tint)]),
{
    let mut spans: Vec<Span> = Vec::new();
    spans.push(Span { text, tint });
    let l = LogLine { level, spans };
    proof {
        assert(l@.1 =~= seq![(text@, tint)]);
    }
    l
}

fn line2(level: Level, a: String, ta: Tint, b: String, tb: Tint) -> (l: LogLine)
    ensures
        l@ == (level, seq![(a@, ta), (b@, tb)]),
{
    let mut spans: Vec<Span> = Vec::new();
    spans.push(Span { text: a, tint: ta });
    spans.push(Span { text: b, tint: tb });
    let l = LogLine { level, spans };
    proof {
        assert(l@.1 =~= seq![(a@, ta), (b@, tb)]);
    }
    l
}

fn labelled(from: &str, msg: &str) -> (r: String)
    ensures
        r@ == from@ + ": "@ + msg@,
{
    let mut r = concat(from, ": ");
    r.append(msg);
    r
}

/// A success message, in green.
pub fn success(msg: &str) -> (l: LogLine)
    ensures
        l@ == (Level::Info, seq![(msg@, Tint::Green)]),
{
    line1(Level::Info, msg.to_owned(), Tint::Green)
}

/// An informational message from the step `from`.
pub fn info(from: &str, msg: &str) -> (l: LogLine)
    ensures
        l@ == (Level::Info, seq![(from@ + ": "@ + msg@, Tint::Plain)]),
{
    line1(Level::Info, labelled(from, msg), Tint::Plain)
}

/// An error message.
pub fn error(msg: &str) -> (l: LogLine)
    ensures
        l@ == (Level::Error, seq![(msg@, Tint::Plain)]),
{
    line1(Level::Error, msg.to_owned(), Tint::Plain)
}

/// A debugging message from the step `from`.
pub fn debug(from: &str, msg: &str) -> (l: LogLine)
    ensures
        l@ == (Level::Debug, seq![(from@ + ": "@ + msg@, Tint::Plain)]),
{
    line1(Level::Debug, labelled(from, msg), Tint::Plain)
}

/// A warning from the step `from`, its text in yellow.
pub fn warn(from: &str, msg: &str) -> (l: LogLine)
    ensures
        l@ == (Level::Warn, seq![(from@ + ": "@, Tint::Plain), (msg@, Tint::Yellow)]),
{
    line2(Level::Warn, concat(from, ": "), Tint::Plain, msg.to_owned(), Tint::Yellow)
}

/// How long the step `what` took, in milliseconds.
pub fn elapsed(what: &str, millis: u64) -> (l: LogLine)
    ensures
        l@ == (
            Level::Info,
            seq![
                (what@, Tint::Green),
                (" completed in "@ + decimal(millis as nat) + "ms"@, Tint::Plain),
            ],
        ),
{
    let mut tail = " completed in ".to_owned();
    tail.append(decimal_text(millis).as_str());
    tail.append("ms");
    line2(Level::Info, what.to_owned(), Tint::Green, tail, Tint::Plain)
}

/// The start of the step `step`, its name in blue.
pub fn start_step(step: &str) -> (l: LogLine)
    ensures
        l@ == (Level::Info, seq![("Starting "@, Tint::Plain), (step@, Tint::Blue)]),
{
    line2(Level::Info, "Starting ".to_owned(), Tint::Plain, step.to_owned(), Tint::Blue)
}

impl LogLine {
    /// The message's text, without colours.
    pub fn text(&self) -> (r: String)
        ensures
            r@ == spans_text(self@.1),
    {
        let mut r = String::new();
        let n = self.spans.len();
        let mut i: usize = 0;
        while i < n
            invariant
                n == self.spans.len(),
                i <= n,
                r@ == spans_text(self@.1.take(i as int)),
            decreases n - i,
        {
            proof {
                assert(self@.1.take(i + 1).drop_last() =~= self@.1.take(i as int));
            }
            r.append(self.spans[i].text.as_str());
            i += 1;
        }
        proof {
            assert(self@.1.take(n as int) =~= self@.1);
        }
        r
    }
}

} // verus!
