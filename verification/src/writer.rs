//! The line writer: a state machine that renders the textual preamble of an
//! HTTP/1.1 message — start line, header lines, terminating blank line —
//! one CRLF-terminated line per step, into a caller-provided text sink.

use crate::types::Header;
use crate::types::Request;
use crate::types::Response;
use crate::types::header_text;
use vstd::prelude::*;
use vstd::slice::slice_index_get;
use vstd::string::StrSliceExecFns;
use vstd::string::StringExecFns;

verus! {

/// The failure a text sink reports when it refuses a write.
#[derive(Clone, Copy, Debug, PartialEq, Eq, Default)]
pub struct WriteError;

/// An append-only text sink, the one collaborator the writer depends on.
///
/// `out()` is the text the sink has accepted so far. A write either appends
/// the whole string and succeeds, or changes nothing and fails.
pub trait Sink {
    /// The text accepted so far.
    spec fn out(&self) -> Seq<char>;

    /// Whether this sink is known never to refuse a write.
    spec fn infallible(&self) -> bool;

    /// Append `s`, or refuse the write and leave the sink unchanged.
    fn write_str(&mut self, s: &str) -> (r: Result<(), WriteError>)
        ensures
            r is Ok ==> final(self).out() == old(self).out() + s@,
            r is Err ==> final(self).out() == old(self).out(),
            final(self).infallible() == old(self).infallible(),
            old(self).infallible() ==> r is Ok,
    ;
}

/// An in-memory `String` buffer is a sink that never fails.
impl Sink for String {
    open spec fn out(&self) -> Seq<char> {
        self@
    }

    open spec fn infallible(&self) -> bool {
        true
    }

    fn write_str(&mut self, s: &str) -> (r: Result<(), WriteError>) {
        self.append(s);
        Ok(())
    }
}

/// A sink over an in-memory buffer that refuses any write which would push
/// the buffer past its capacity, leaving the buffer untouched. Useful to
/// exercise the writer's failure path deterministically.
pub struct BoundedSink {
    /// The text accepted so far.
    pub buf: String,
    /// The largest length `buf` may reach.
    pub capacity: usize,
}

impl Sink for BoundedSink {
    open spec fn out(&self) -> Seq<char> {
        self.buf@
    }

    open spec fn infallible(&self) -> bool {
        false
    }

    fn write_str(&mut self, s: &str) -> (r: Result<(), WriteError>)
        ensures
            final(self).capacity == old(self).capacity,
            r is Ok <==> old(self).buf@.len() + s@.len() <= old(self).capacity,
    {
        let added: usize = s.unicode_len();
        let held: usize = self.buf.as_str().unicode_len();
        if added <= self.capacity && held <= self.capacity - added {
            self.buf.append(s);
            Ok(())
        } else {
            Err(WriteError)
        }
    }
}

/// The decimal digit character for `d`.
pub open spec fn dec_digit(d: int) -> char {
    if d == 0 {
        '0'
    } else if d == 1 {
        '1'
    } else if d == 2 {
        '2'
    } else if d == 3 {
        '3'
    } else if d == 4 {
        '4'
    } else if d == 5 {
        '5'
    } else if d == 6 {
        '6'
    } else if d == 7 {
        '7'
    } else if d == 8 {
        '8'
    } else {
        '9'
    }
}

/// The decimal digits of `n`, most significant first: no sign, no leading
/// zeros, a lone `0` for zero.
pub open spec fn dec_str(n: int) -> Seq<char>
    recommends
        n >= 0,
    decreases n,
{
    if n < 10 {
        seq![dec_digit(n)]
    } else {
        dec_str(n / 10) + seq![dec_digit(n % 10)]
    }
}

/// The one-character string for the decimal digit `d`.
fn digit_str(d: u16) -> (r: &'static str)
    requires
        d < 10,
    ensures
        r@ == seq![dec_digit(d as int)],
{
    let r: &'static str = if d == 0 {
        "0"
    } else if d == 1 {
        "1"
    } else if d == 2 {
        "2"
    } else if d == 3 {
        "3"
    } else if d == 4 {
        "4"
    } else if d == 5 {
        "5"
    } else if d == 6 {
        "6"
    } else if d == 7 {
        "7"
    } else if d == 8 {
        "8"
    } else {
        "9"
    };
    proof {
        reveal_strlit("0");
        reveal_strlit("1");
        reveal_strlit("2");
        reveal_strlit("3");
        reveal_strlit("4");
        reveal_strlit("5");
        reveal_strlit("6");
        reveal_strlit("7");
        reveal_strlit("8");
        reveal_strlit("9");
        assert(r@ =~= seq![dec_digit(d as int)]);
    }
    r
}

/// Render `n` in decimal, matching `dec_str`.
pub fn u16_to_dec(n: u16) -> (r: String)
    ensures
        r@ == dec_str(n as int),
    decreases n,
{
    if n < 10 {
        digit_str(n).to_owned()
    } else {
        let mut s = u16_to_dec(n / 10);
        s.append(digit_str(n % 10));
        s
    }
}

/// The capability a message provides to be written: render its start line
/// and expose its headers. It is meant as a closed extension point: only
/// [`Request`] and [`Response`] are intended to implement it.
pub trait Sealed {
    /// The rendered start line, terminator included.
    spec fn start_line(&self) -> Seq<char>;

    /// The message's headers, in writing order.
    spec fn headers_view(&self) -> Seq<Header>;

    /// Write the whole start line, terminator included, into `w`; on
    /// failure, leave `w` unchanged.
    fn write_start_line<W: Sink>(&self, w: &mut W) -> (r: Result<(), WriteError>)
        ensures
            r is Ok ==> final(w).out() == old(w).out() + self.start_line(),
            r is Err ==> final(w).out() == old(w).out(),
            final(w).infallible() == old(w).infallible(),
            old(w).infallible() ==> r is Ok,
    ;

    /// The headers as a borrowed slice.
    fn headers(&self) -> (r: &[Header])
        ensures
            r@ == self.headers_view(),
    ;
}

/// Marker for the message shapes the writer renders.
pub trait HttpMessage: Sealed {}

impl Sealed for Request {
    open spec fn start_line(&self) -> Seq<char> {
        self.method@ + " "@ + self.request_target@ + " HTTP/1.1\r\n"@
    }

    open spec fn headers_view(&self) -> Seq<Header> {
        self.headers@
    }

    fn write_start_line<W: Sink>(&self, w: &mut W) -> (r: Result<(), WriteError>) {
        let mut line = self.method.0.clone();
        line.append(" ");
        line.append(self.request_target.as_str());
        line.append(" HTTP/1.1\r\n");
        w.write_str(line.as_str())
    }

    fn headers(&self) -> (r: &[Header]) {
        self.headers.as_slice()
    }
}

impl HttpMessage for Request {}

impl Sealed for Response {
    open spec fn start_line(&self) -> Seq<char> {
        "HTTP/1.1 "@ + dec_str(self.status_code@ as int) + " "@ + self.reason_phrase@ + "\r\n"@
    }

    open spec fn headers_view(&self) -> Seq<Header> {
        self.headers@
    }

    fn write_start_line<W: Sink>(&self, w: &mut W) -> (r: Result<(), WriteError>) {
        let mut line = "HTTP/1.1 ".to_owned();
        let code = u16_to_dec(self.status_code.code());
        line.append(code.as_str());
        line.append(" ");
        line.append(self.reason_phrase.as_str());
        line.append("\r\n");
        w.write_str(line.as_str())
    }

    fn headers(&self) -> (r: &[Header]) {
        self.headers.as_slice()
    }
}

impl HttpMessage for Response {}

/// A header as it stands on the wire: `name: value` plus the terminator.
pub open spec fn header_line(h: Header) -> Seq<char> {
    header_text(h) + "\r\n"@
}

/// The header lines from index `i` to the end, concatenated.
pub open spec fn header_block(hs: Seq<Header>, i: int) -> Seq<char>
    decreases hs.len() - i,
{
    if i < 0 || i >= hs.len() {
        Seq::empty()
    } else {
        header_line(hs[i]) + header_block(hs, i + 1)
    }
}

/// The writer's position within the preamble.
#[derive(Clone, Copy, Debug, PartialEq, Eq)]
pub enum State {
    /// About to write the start line.
    StartLine,
    /// About to write the header at the held index.
    Headers(usize),
    /// About to write the blank line that ends the header block.
    Crlf,
    /// Exhausted: nothing further is written.
    End,
}

/// Whether a step from `s` reports that a content line was produced.
pub open spec fn produced(s: State) -> bool {
    s is StartLine || s is Headers
}

/// Whether `s` is a consistent position for a writer over `m`: the header
/// count fits the index type, and a header position points at a header.
pub open spec fn wf_state<T: Sealed>(m: &T, s: State) -> bool {
    &&& m.headers_view().len() <= usize::MAX
    &&& (s matches State::Headers(i) ==> i < m.headers_view().len())
}

/// The text a single step from `s` writes.
pub open spec fn emitted<T: Sealed>(m: &T, s: State) -> Seq<char> {
    match s {
        State::StartLine => m.start_line(),
        State::Headers(i) => if i < m.headers_view().len() {
            header_line(m.headers_view()[i as int])
        } else {
            Seq::empty()
        },
        State::Crlf => "\r\n"@,
        State::End => Seq::empty(),
    }
}

/// The state one successful step from `s` reaches.
pub open spec fn next_state<T: Sealed>(m: &T, s: State) -> State {
    match s {
        State::StartLine => if m.headers_view().len() == 0 {
            State::Crlf
        } else {
            State::Headers(0)
        },
        State::Headers(i) => if i + 1 < m.headers_view().len() {
            State::Headers((i + 1) as usize)
        } else {
            State::Crlf
        },
        State::Crlf => State::End,
        State::End => State::End,
    }
}

/// Everything a writer positioned at `s` has yet to write.
pub open spec fn remaining<T: Sealed>(m: &T, s: State) -> Seq<char> {
    match s {
        State::StartLine => m.start_line() + header_block(m.headers_view(), 0) + "\r\n"@,
        State::Headers(i) => header_block(m.headers_view(), i as int) + "\r\n"@,
        State::Crlf => "\r\n"@,
        State::End => Seq::empty(),
    }
}

/// How many steps a writer at `s` is from `End`.
pub open spec fn steps_left<T: Sealed>(m: &T, s: State) -> int {
    match s {
        State::StartLine => m.headers_view().len() + 2int,
        State::Headers(i) => m.headers_view().len() - i + 1,
        State::Crlf => 1,
        State::End => 0,
    }
}

/// One step's accounting: the text a step from `s` writes, followed by what
/// remains afterwards, is exactly what remained before the step — no line
/// is dropped, duplicated, or reordered along the way.
pub proof fn lemma_remaining_step<T: Sealed>(m: &T, s: State)
    requires
        wf_state(m, s),
    ensures
        remaining(m, s) == emitted(m, s) + remaining(m, next_state(m, s)),
        wf_state(m, next_state(m, s)),
        !(s is End) ==> steps_left(m, next_state(m, s)) < steps_left(m, s),
        s is End ==> next_state(m, s) == s,
{
    let hs = m.headers_view();
    match s {
        State::StartLine => {
            if hs.len() == 0 {
                assert(header_block(hs, 0) =~= Seq::<char>::empty());
                assert(remaining(m, s) =~= emitted(m, s) + remaining(m, next_state(m, s)));
            } else {
                assert(remaining(m, s) =~= emitted(m, s) + remaining(m, next_state(m, s)));
            }
        }
        State::Headers(i) => {
            if i + 1 < hs.len() {
                assert(remaining(m, s) =~= emitted(m, s) + remaining(m, next_state(m, s)));
            } else {
                assert(header_block(hs, i + 1) =~= Seq::<char>::empty());
                assert(remaining(m, s) =~= emitted(m, s) + remaining(m, next_state(m, s)));
            }
        }
        State::Crlf => {
            assert(remaining(m, s) =~= emitted(m, s) + remaining(m, next_state(m, s)));
        }
        State::End => {
            assert(remaining(m, s) =~= emitted(m, s) + remaining(m, next_state(m, s)));
        }
    }
}

/// Exhaustion is final: a step that reports nothing lands in `End`, and
/// from `End` every further step writes nothing, reports nothing, and
/// stays in `End`.
pub proof fn lemma_exhaustion_idempotent<T: Sealed>(m: &T, s: State)
    requires
        !produced(s),
    ensures
        next_state(m, s) == State::End,
        next_state(m, State::End) == State::End,
        emitted(m, State::End) == Seq::<char>::empty(),
        !produced(State::End),
{
}

/// The texts of the steps from `s` until the writer stops, one entry per
/// step that writes: the start line, each header line, the blank line.
pub open spec fn line_seq<T: Sealed>(m: &T, s: State) -> Seq<Seq<char>>
    decreases steps_left(m, s),
    when wf_state(m, s)
{
    if s is End || !wf_state(m, s) {
        Seq::empty()
    } else {
        seq![emitted(m, s)] + line_seq(m, next_state(m, s))
    }
}

/// The blank-line step is the last entry of the writer's line sequence.
proof fn lemma_line_seq_crlf<T: Sealed>(m: &T)
    requires
        wf_state(m, State::Crlf),
    ensures
        line_seq(m, State::Crlf) =~= seq!["\r\n"@],
{
    assert(line_seq(m, State::End) =~= Seq::<Seq<char>>::empty());
    assert(line_seq(m, State::Crlf) =~= seq![emitted(m, State::Crlf)] + line_seq(m, State::End));
}

/// Induction step for header order: from a header position on, the writer
/// emits one line per remaining header, in stored order, then the blank line.
proof fn lemma_line_seq_headers<T: Sealed>(m: &T, i: usize)
    requires
        wf_state(m, State::Headers(i)),
    ensures
        line_seq(m, State::Headers(i)).len() == m.headers_view().len() - i + 1,
        forall|j: int|
            i <= j < m.headers_view().len() ==> line_seq(m, State::Headers(i))[j - i]
                == header_line(m.headers_view()[j]),
        line_seq(m, State::Headers(i)).last() == "\r\n"@,
    decreases m.headers_view().len() - i,
{
    let hs = m.headers_view();
    if i + 1 < hs.len() {
        lemma_line_seq_headers(m, (i + 1) as usize);
    } else {
        lemma_line_seq_crlf(m);
    }
}

/// Header order preservation: driven from the start, the writer emits the
/// start line, then exactly one line per stored header in stored order —
/// duplicate names and values included — and the blank line last.
pub proof fn lemma_header_order<T: Sealed>(m: &T)
    requires
        wf_state(m, State::StartLine),
    ensures
        line_seq(m, State::StartLine).len() == m.headers_view().len() + 2,
        line_seq(m, State::StartLine)[0] == m.start_line(),
        forall|j: int|
            0 <= j < m.headers_view().len() ==> line_seq(m, State::StartLine)[j + 1]
                == header_line(m.headers_view()[j]),
        line_seq(m, State::StartLine).last() == "\r\n"@,
{
    let hs = m.headers_view();
    if hs.len() == 0 {
        lemma_line_seq_crlf(m);
    } else {
        lemma_line_seq_headers(m, 0);
    }
}

/// Completeness: concatenating the step texts from `s` gives exactly the
/// text that remains to be written from `s` — the whole preamble, when the
/// writer starts at the start line.
pub proof fn lemma_line_seq_flatten<T: Sealed>(m: &T, s: State)
    requires
        wf_state(m, s),
    ensures
        line_seq(m, s).flatten() == remaining(m, s),
    decreases steps_left(m, s),
{
    lemma_remaining_step(m, s);
    if s is End {
        assert(line_seq(m, s).flatten() =~= Seq::<char>::empty());
    } else {
        let rest = line_seq(m, next_state(m, s));
        let whole = seq![emitted(m, s)] + rest;
        assert(line_seq(m, s) == whole);
        assert(whole.first() == emitted(m, s));
        assert(whole.drop_first() =~= rest);
        lemma_line_seq_flatten(m, next_state(m, s));
    }
}

/// The incremental writer. It holds a borrowed, read-only message and a
/// position; each `write_line` call renders at most one line.
pub struct Writer<'a, T: HttpMessage> {
    /// The message being rendered; never mutated by the writer.
    pub message: &'a T,
    /// The current position within the preamble.
    pub state: State,
}

impl<'a, T: HttpMessage> Writer<'a, T> {
    /// Whether the writer's position is consistent with its message.
    pub open spec fn wf(&self) -> bool {
        wf_state(self.message, self.state)
    }

    /// A writer positioned at the start line of `message`.
    pub fn new(message: &'a T) -> (r: Self)
        ensures
            r.message == message,
            r.state == State::StartLine,
            r.wf(),
    {
        // Borrowing the headers as a slice pins their count to what a usize
        // can hold, which every later position relies on.
        let _n: usize = message.headers().len();
        Writer { message, state: State::StartLine }
    }

    /// Write at most one line into `w` and advance one state.
    ///
    /// On success the signal is `Some(())` exactly when a content line — the
    /// start line or a header line — was written; the blank-line step writes
    /// `"\r\n"` but reports `None`, and every step after it writes nothing
    /// and reports `None`. On a sink failure nothing changes: the sink keeps
    /// its text and the writer keeps its state, so a retry re-renders the
    /// same line.
    pub fn write_line<W: Sink>(&mut self, w: &mut W) -> (r: Result<Option<()>, WriteError>)
        requires
            old(self).wf(),
        ensures
            final(self).message == old(self).message,
            final(self).wf(),
            final(w).infallible() == old(w).infallible(),
            old(w).infallible() ==> r is Ok,
            match r {
                Ok(opt) => final(self).state == next_state(old(self).message, old(self).state)
                    && final(w).out() == old(w).out() + emitted(old(self).message, old(self).state)
                    && (opt is Some <==> produced(old(self).state)),
                Err(_) => final(self).state == old(self).state && final(w).out() == old(w).out(),
            },
    {
        match self.state {
            State::StartLine => {
                match self.message.write_start_line(w) {
                    Ok(()) => {}
                    Err(e) => {
                        return Err(e);
                    }
                }
                let hs = self.message.headers();
                if hs.len() == 0 {
                    self.state = State::Crlf;
                } else {
                    self.state = State::Headers(0);
                }
                Ok(Some(()))
            }
            State::Headers(i) => {
                let hs = self.message.headers();
                let n: usize = hs.len();
                let h = slice_index_get(hs, i);
                let mut line = h.render();
                line.append("\r\n");
                match w.write_str(line.as_str()) {
                    Ok(()) => {}
                    Err(e) => {
                        return Err(e);
                    }
                }
                if i + 1 < n {
                    self.state = State::Headers(i + 1);
                } else {
                    self.state = State::Crlf;
                }
                Ok(Some(()))
            }
            State::Crlf => {
                match w.write_str("\r\n") {
                    Ok(()) => {}
                    Err(e) => {
                        return Err(e);
                    }
                }
                self.state = State::End;
                Ok(None)
            }
            State::End => {
                proof {
                    assert(old(w).out() + Seq::<char>::empty() =~= old(w).out());
                }
                Ok(None)
            }
        }
    }

    /// Drive the writer to completion: write every remaining line, the
    /// terminating blank line included, stopping exactly at the first step
    /// that reports nothing. On a sink failure the writer is left at the
    /// failed line with its state preserved, and what the sink gained plus
    /// what still remains is exactly what remained at the call.
    pub fn write_all<W: Sink>(&mut self, w: &mut W) -> (r: Result<(), WriteError>)
        requires
            old(self).wf(),
        ensures
            final(self).message == old(self).message,
            final(self).wf(),
            old(w).out() + remaining(old(self).message, old(self).state) == final(w).out()
                + remaining(final(self).message, final(self).state),
            final(w).infallible() == old(w).infallible(),
            old(w).infallible() ==> r is Ok,
            r is Ok ==> final(self).state == State::End && final(w).out() == old(w).out()
                + remaining(old(self).message, old(self).state),
    {
        loop
            invariant
                self.wf(),
                self.message == old(self).message,
                w.infallible() == old(w).infallible(),
                old(w).out() + remaining(old(self).message, old(self).state) == w.out()
                    + remaining(self.message, self.state),
            decreases steps_left(self.message, self.state),
        {
            let ghost pre_state = self.state;
            let ghost pre_out = w.out();
            proof {
                lemma_remaining_step(self.message, pre_state);
            }
            match self.write_line(w) {
                Ok(Some(())) => {
                    proof {
                        assert(pre_out + remaining(self.message, pre_state) =~= w.out()
                            + remaining(self.message, self.state));
                    }
                }
                Ok(None) => {
                    proof {
                        assert(pre_out + remaining(self.message, pre_state) =~= w.out()
                            + remaining(self.message, self.state));
                        assert(w.out() + Seq::<char>::empty() =~= w.out());
                    }
                    return Ok(());
                }
                Err(e) => {
                    return Err(e);
                }
            }
        }
    }

    /// Take the next rendered line as an owned string: the writer's lazy,
    /// non-restartable sequence form. Yields `Some` with one line — its own
    /// terminator included — for the start line and each header line, and
    /// `None` from the first non-producing step on (the terminating blank
    /// line is consumed by that step, not yielded).
    pub fn next(&mut self) -> (r: Option<Result<String, WriteError>>)
        requires
            old(self).wf(),
        ensures
            final(self).message == old(self).message,
            final(self).wf(),
            final(self).state == next_state(old(self).message, old(self).state),
            match r {
                Some(step) => match step {
                    Ok(line) => produced(old(self).state) && line@ == emitted(
                        old(self).message,
                        old(self).state,
                    ),
                    Err(_) => false,
                },
                None => !produced(old(self).state),
            },
    {
        let mut buf = String::new();
        match self.write_line(&mut buf) {
            Ok(Some(())) => Some(Ok(buf)),
            Ok(None) => None,
            Err(e) => Some(Err(e)),
        }
    }
}

} // verus!
