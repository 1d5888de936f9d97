//! Sending text through a serial port that takes a part of it at a time.
//!
//! A byte counts as taken when the port has reported it as taken. What a port does with bytes of
//! a write that it answers with an error is not known.

use crate::line::line_text;
use vstd::prelude::*;
use vstd::utf8::encode_utf8;

verus! {

/// What is known of a text that is being sent.
#[verifier::ext_equal]
pub struct Progress {
    /// The bytes that the port has not reported as taken.
    pub rest: Seq<u8>,
    /// Whether the port has refused a write.
    pub refused: bool,
}

impl Progress {
    /// Nothing is sent yet.
    pub open spec fn start(bytes: Seq<u8>) -> Progress {
        Progress { rest: bytes, refused: false }
    }

    /// Nothing more will be written.
    pub open spec fn done(self) -> bool {
        self.refused || self.rest.len() == 0
    }

    /// Whether the port can answer a write of the rest with this result: it takes no more bytes
    /// than it is given.
    pub open spec fn answers(self, result: Result<usize, ()>) -> bool {
        result matches Ok(n) ==> n <= self.rest.len()
    }

    /// The bytes that the port reports as taken with this result.
    pub open spec fn taken(self, result: Result<usize, ()>) -> Seq<u8> {
        match result {
            Ok(n) => self.rest.take(n as int),
            Err(_) => Seq::empty(),
        }
    }

    /// What follows a write with this result.
    pub open spec fn after(self, result: Result<usize, ()>) -> Progress {
        match result {
            Ok(n) => Progress { rest: self.rest.skip(n as int), refused: self.refused },
            Err(_) => Progress { rest: self.rest, refused: true },
        }
    }

    /// What follows a series of writes with these results.
    pub open spec fn after_all(self, results: Seq<Result<usize, ()>>) -> Progress
        decreases results.len(),
    {
        if results.len() == 0 {
            self
        } else {
            self.after_all(results.drop_last()).after(results.last())
        }
    }

    /// The bytes that the port reports as taken over a series of writes with these results.
    pub open spec fn taken_all(self, results: Seq<Result<usize, ()>>) -> Seq<u8>
        decreases results.len(),
    {
        if results.len() == 0 {
            Seq::empty()
        } else {
            self.taken_all(results.drop_last()) + self.after_all(results.drop_last()).taken(
                results.last(),
            )
        }
    }

    /// Whether a series of writes can go like this: each is made while something is pending,
    /// and the port answers each with a number of bytes that it was given, or with a refusal.
    pub open spec fn can_go(self, results: Seq<Result<usize, ()>>) -> bool
        decreases results.len(),
    {
        results.len() > 0 ==> {
            &&& self.can_go(results.drop_last())
            &&& !self.after_all(results.drop_last()).done()
            &&& self.after_all(results.drop_last()).answers(results.last())
        }
    }
}

/// A text on its way through the serial port.
pub struct Transfer<'a> {
    bytes: &'a [u8],
    refused: bool,
}

impl<'a> View for Transfer<'a> {
    type V = Progress;

    closed spec fn view(&self) -> Progress {
        Progress { rest: self.bytes@, refused: self.refused }
    }
}

impl<'a> Transfer<'a> {
    /// Starts to send a text.
    pub fn of_str(text: &'a str) -> (transfer: Transfer<'a>)
        ensures
            transfer@ == Progress::start(encode_utf8(text@)),
            transfer@.rest == encode_utf8(text@),
            !transfer@.refused,
    {
        Transfer { bytes: text.as_bytes(), refused: false }
    }

    /// Starts to send a line.
    pub fn of_line(line: &'a heapless::String<64>) -> (transfer: Transfer<'a>)
        ensures
            transfer@ == Progress::start(encode_utf8(line_text(*line))),
            transfer@.rest == encode_utf8(line_text(*line)),
            !transfer@.refused,
    {
        Transfer::of_str(line_as_str(line))
    }

    /// The bytes to hand to the port next, or `None` when nothing more is to be written.
    pub fn pending(&self) -> (bytes: Option<&'a [u8]>)
        ensures
            bytes is None <==> self@.done(),
            bytes is None <==> self@.refused || self@.rest.len() == 0,
            bytes matches Some(bytes) ==> bytes@ == self@.rest,
    {
        if self.refused || self.bytes.len() == 0 {
            None
        } else {
            Some(self.bytes)
        }
    }

    /// Takes note of the port's answer to a write of the pending bytes: the number of bytes that
    /// it took, or a refusal, after which the rest of the text is dropped.
    pub fn after_write(&mut self, result: Result<usize, ()>)
        requires
            old(self)@.answers(result),
        ensures
            final(self)@ == old(self)@.after(result),
            result matches Ok(n) ==> final(self)@.rest == old(self)@.rest.skip(n as int),
            result is Err ==> final(self)@.rest == old(self)@.rest,
            final(self)@.refused <==> old(self)@.refused || result is Err,
    {
        match result {
            Ok(n) => {
                self.bytes = vstd::slice::slice_subrange(self.bytes, n, self.bytes.len());
            },
            Err(_) => {
                self.refused = true;
            },
        }
    }
}

/// Calls `heapless::String::as_str`: the slice has the characters of the line.
#[verifier::external_body]
fn line_as_str(line: &heapless::String<64>) -> (text: &str)
    ensures
        text@ == line_text(*line),
{
    line.as_str()
}

/// Every byte is reported as taken at most once, and in order: those that were, followed by
/// those that were not, are the text.
pub proof fn law_bytes_are_taken_in_order(start: Progress, results: Seq<Result<usize, ()>>)
    requires
        start.can_go(results),
    ensures
        start.taken_all(results) + start.after_all(results).rest == start.rest,
    decreases results.len(),
{
    if results.len() > 0 {
        let before = start.after_all(results.drop_last());
        law_bytes_are_taken_in_order(start, results.drop_last());
        assert(before.taken(results.last()) + before.after(results.last()).rest == before.rest);
        assert(start.taken_all(results) + start.after_all(results).rest == start.taken_all(
            results.drop_last(),
        ) + (before.taken(results.last()) + before.after(results.last()).rest));
    }
}

/// All of a text is reported as taken when nothing more is pending and no write was refused.
pub proof fn law_text_is_taken_whole(start: Progress, results: Seq<Result<usize, ()>>)
    requires
        start.can_go(results),
        start.after_all(results).done(),
        !start.after_all(results).refused,
    ensures
        start.taken_all(results) == start.rest,
{
    law_bytes_are_taken_in_order(start, results);
}

/// A text that is sent from the start is reported as taken from its first byte to its last, once
/// nothing more is pending and no write was refused.
pub proof fn law_sent_text_is_taken_whole(text: Seq<char>, results: Seq<Result<usize, ()>>)
    requires
        Progress::start(encode_utf8(text)).can_go(results),
        Progress::start(encode_utf8(text)).after_all(results).done(),
        forall|i: int| 0 <= i < results.len() ==> #[trigger] results[i] is Ok,
    ensures
        Progress::start(encode_utf8(text)).taken_all(results) == encode_utf8(text),
{
    let start = Progress::start(encode_utf8(text));
    lemma_not_refused(start, results);
    law_text_is_taken_whole(start, results);
}

/// Whatever the port answers, the bytes of a text that were reported as taken are the first
/// bytes of the text, and those that are left are the others.
pub proof fn law_sent_text_is_taken_from_the_start(
    text: Seq<char>,
    results: Seq<Result<usize, ()>>,
)
    requires
        Progress::start(encode_utf8(text)).can_go(results),
    ensures
        Progress::start(encode_utf8(text)).taken_all(results)
            + Progress::start(encode_utf8(text)).after_all(results).rest == encode_utf8(text),
{
    law_bytes_are_taken_in_order(Progress::start(encode_utf8(text)), results);
}

/// A port that takes everything at once needs one write for a text, and gets all of it.
pub proof fn law_one_write_can_be_enough(text: Seq<char>)
    requires
        0 < encode_utf8(text).len() <= usize::MAX,
    ensures
        ({
            let start = Progress::start(encode_utf8(text));
            let results = seq![Ok::<usize, ()>(encode_utf8(text).len() as usize)];
            &&& start.can_go(results)
            &&& start.after_all(results).done()
            &&& start.taken_all(results) == encode_utf8(text)
        }),
{
    let start = Progress::start(encode_utf8(text));
    let results = seq![Ok::<usize, ()>(encode_utf8(text).len() as usize)];
    assert(results.drop_last() =~= Seq::<Result<usize, ()>>::empty());
    reveal_with_fuel(Progress::can_go, 2);
    reveal_with_fuel(Progress::after_all, 2);
    reveal_with_fuel(Progress::taken_all, 2);
    assert(start.taken_all(results) =~= encode_utf8(text));
}

/// Without a refusal among the answers, the transfer is not refused.
proof fn lemma_not_refused(start: Progress, results: Seq<Result<usize, ()>>)
    requires
        !start.refused,
        forall|i: int| 0 <= i < results.len() ==> #[trigger] results[i] is Ok,
    ensures
        !start.after_all(results).refused,
    decreases results.len(),
{
    if results.len() > 0 {
        lemma_not_refused(start, results.drop_last());
        assert(results[results.len() - 1] is Ok);
    }
}

/// A write is refused only at the end: a refusal is the last answer that is asked for.
pub proof fn law_refusal_ends_the_transfer(
    start: Progress,
    results: Seq<Result<usize, ()>>,
    i: int,
)
    requires
        start.can_go(results),
        0 <= i < results.len(),
        results[i] is Err,
    ensures
        i == results.len() - 1,
        start.after_all(results).done(),
        start.after_all(results).refused,
    decreases results.len(),
{
    if i < results.len() - 1 {
        law_refusal_ends_the_transfer(start, results.drop_last(), i);
    }
}

/// A transfer ends: with a port that takes at least one byte or refuses, there are no more
/// writes than there are bytes.
pub proof fn law_transfer_ends(start: Progress, results: Seq<Result<usize, ()>>)
    requires
        start.can_go(results),
        forall|i: int| 0 <= i < results.len() ==> (#[trigger] results[i] matches Ok(n) ==> n > 0),
    ensures
        results.len() <= start.rest.len(),
{
    lemma_each_write_shortens(start, results);
}

proof fn lemma_each_write_shortens(start: Progress, results: Seq<Result<usize, ()>>)
    requires
        start.can_go(results),
        forall|i: int| 0 <= i < results.len() ==> (#[trigger] results[i] matches Ok(n) ==> n > 0),
    ensures
        start.after_all(results).refused && results.len() > 0 ==> results.len()
            <= start.rest.len(),
        !start.after_all(results).refused ==> results.len() + start.after_all(results).rest.len()
            <= start.rest.len(),
    decreases results.len(),
{
    if results.len() > 0 {
        lemma_each_write_shortens(start, results.drop_last());
        assert(results.last() == results[results.len() - 1]);
    }
}

} // verus!
