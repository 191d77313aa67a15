//! The http tunnel's own logic: the head of the request that is relayed to
//! the client, and the reading of the response that comes back.
use vstd::prelude::*;

use vstd::string::StringSliceAdditionalSpecFns;
use vstd::utf8::encode_utf8;

use crate::ext::http_head::{header_views, parse_response_head, parsed_response_head};

verus! {

/// The most bytes a response head is expected to take.
pub const MAX_HEADER_SIZE: usize = 4096;

/// The byte `\r`.
pub const CR: u8 = 13;

/// The byte `\n`.
pub const LF: u8 = 10;

/// What the http parser read from a response head.
#[derive(Debug)]
pub struct ParsedHead {
    pub code: Option<u16>,
    pub version: Option<u8>,
    pub headers: Vec<(String, Vec<u8>)>,
}

/// The http version of a response.
#[derive(Clone, Copy, Debug, PartialEq, Eq, Structural)]
pub enum HttpVersion {
    Http10,
    Http11,
}

/// The version of a response whose minor version number is `minor`:
/// `HTTP/1.0` for minor version 0, `HTTP/1.1` otherwise.
pub open spec fn version_of(minor: Option<u8>) -> HttpVersion {
    if minor == Some(0u8) {
        HttpVersion::Http10
    } else {
        HttpVersion::Http11
    }
}

impl HttpVersion {
    /// The version of a response whose minor version number is `minor`.
    pub fn from_minor(minor: Option<u8>) -> (r: HttpVersion)
        ensures
            r == version_of(minor),
    {
        match minor {
            Some(0) => HttpVersion::Http10,
            _ => HttpVersion::Http11,
        }
    }
}

/// The head of a response to relay to the user.
#[derive(Debug)]
pub struct ResponseHead {
    pub status: u16,
    pub version: HttpVersion,
    pub headers: Vec<(String, Vec<u8>)>,
}

/// Why a response head could not be used.
#[derive(Clone, Copy, Debug, PartialEq, Eq, Structural)]
pub enum HeadError {
    /// The parser rejected the bytes.
    Malformed,
    /// The head has no status code.
    NoStatus,
}

/// What a parsed response head means for the relay.
#[derive(Debug)]
pub enum HeadVerdict {
    /// The head is unusable.
    Invalid(HeadError),
    /// An interim `100 Continue` response, which the user's http server has
    /// answered already: it is dropped and the final head is awaited.
    Continue,
    /// The final head of the response.
    Final(ResponseHead),
}

/// The status code that asks the client to continue.
pub const CONTINUE: u16 = 100;

/// What a parse of a response head means: a rejected head or one without a
/// status is invalid, `100` is an interim response, anything else is the
/// final head with the parsed status, version and header lines.
pub fn interpret_head(parsed: Option<ParsedHead>) -> (r: HeadVerdict)
    ensures
        match parsed {
            None => r == HeadVerdict::Invalid(HeadError::Malformed),
            Some(p) => match p.code {
                None => r == HeadVerdict::Invalid(HeadError::NoStatus),
                Some(c) => if c == CONTINUE {
                    r is Continue
                } else {
                    r matches HeadVerdict::Final(h) && h.status == c && h.version == version_of(
                        p.version,
                    ) && header_views(h.headers@) == header_views(p.headers@)
                },
            },
        },
{
    match parsed {
        None => HeadVerdict::Invalid(HeadError::Malformed),
        Some(p) => match p.code {
            None => HeadVerdict::Invalid(HeadError::NoStatus),
            Some(code) => {
                if code == CONTINUE {
                    HeadVerdict::Continue
                } else {
                    HeadVerdict::Final(
                        ResponseHead {
                            status: code,
                            version: HttpVersion::from_minor(p.version),
                            headers: p.headers,
                        },
                    )
                }
            },
        },
    }
}

/// The bytes at `i` are the `\r\n\r\n` that ends an http head.
pub open spec fn head_end_at(s: Seq<u8>, i: int) -> bool {
    &&& 0 <= i
    &&& i + 3 < s.len()
    &&& s[i] == CR
    &&& s[i + 1] == LF
    &&& s[i + 2] == CR
    &&& s[i + 3] == LF
}

/// The first place at or after `from` where an http head ends.
pub open spec fn head_end_from(s: Seq<u8>, from: int) -> Option<int>
    decreases s.len() - from,
{
    if from < 0 || from + 3 >= s.len() {
        None
    } else if head_end_at(s, from) {
        Some(from)
    } else {
        head_end_from(s, from + 1)
    }
}

/// A head end found from `from` is the first one there.
pub proof fn lemma_head_end_from(s: Seq<u8>, from: int)
    requires
        0 <= from,
    ensures
        head_end_from(s, from) matches Some(k) ==> from <= k && head_end_at(s, k) && forall|j: int|
            from <= j < k ==> !head_end_at(s, j),
        head_end_from(s, from) is None ==> forall|j: int| from <= j ==> !head_end_at(s, j),
    decreases s.len() - from,
{
    if from + 3 < s.len() && !head_end_at(s, from) {
        lemma_head_end_from(s, from + 1);
    }
}

/// Collects the bytes of a response until its head is complete, then
/// splits the head from the start of the body.
pub struct ResponseHeaderScanner {
    buf: Vec<u8>,
    ended: bool,
    pos: usize,
}

impl ResponseHeaderScanner {
    /// The bytes collected.
    pub closed spec fn buffered(&self) -> Seq<u8> {
        self.buf@
    }

    /// The head was found.
    pub closed spec fn ended(&self) -> bool {
        self.ended
    }

    /// Where the search for the end of the head starts; once the head is
    /// found, where the body starts.
    pub closed spec fn pos(&self) -> nat {
        self.pos as nat
    }

    /// The search position lies within the collected bytes.
    pub open spec fn well_formed(&self) -> bool {
        self.pos() <= self.buffered().len()
    }

    /// An empty scanner; `buf_size` is the room it starts with.
    pub fn new(buf_size: usize) -> (r: Self)
        ensures
            r.well_formed(),
            r.buffered() == Seq::<u8>::empty(),
            !r.ended(),
            r.pos() == 0,
    {
        Self { buf: Vec::with_capacity(buf_size), ended: false, pos: 0 }
    }

    /// Whether the head was found.
    pub fn is_ended(&self) -> (r: bool)
        ensures
            r == self.ended(),
    {
        self.ended
    }

    /// The collected bytes split at the search position: the head and the
    /// start of the body once the head was found.
    pub fn split_parts(&self) -> (r: (&[u8], &[u8]))
        requires
            self.well_formed(),
        ensures
            r.0@ == self.buffered().take(self.pos() as int),
            r.1@ == self.buffered().skip(self.pos() as int),
    {
        let all = self.buf.as_slice();
        let head = vstd::slice::slice_subrange(all, 0, self.pos);
        let body = vstd::slice::slice_subrange(all, self.pos, all.len());
        (head, body)
    }

    /// Adds `new_buf` to the collected bytes and looks for the end of the
    /// head (`\r\n\r\n`) from the search position on. When found, the
    /// search position moves past it and the head counts as found.
    pub fn scan(&mut self, new_buf: Vec<u8>) -> (r: bool)
        requires
            old(self).well_formed(),
        ensures
            final(self).well_formed(),
            final(self).buffered() == old(self).buffered() + new_buf@,
            r == head_end_from(final(self).buffered(), old(self).pos() as int) is Some,
            r ==> final(self).ended() && head_end_from(final(self).buffered(), old(self).pos() as int)
                == Some(final(self).pos() - 4),
            !r ==> final(self).ended() == old(self).ended() && final(self).pos() == old(self).pos(),
    {
        let ghost collected = old(self).buffered() + new_buf@;
        let mut new_buf = new_buf;
        self.buf.append(&mut new_buf);
        let len = self.buf.len();
        if len < 3 {
            // too few bytes to hold the end of a head
            return false;
        }
        let end = len - 3;
        let mut i = self.pos;
        let mut hit = false;
        while i < end
            invariant_except_break
                !hit,
            invariant
                self.well_formed(),
                self.buf@ == collected,
                self.buf@.len() >= 3,
                self.ended == old(self).ended,
                self.pos == old(self).pos,
                len == self.buf@.len(),
                end == len - 3,
                old(self).pos() <= i,
                i <= end || i == old(self).pos(),
                head_end_from(self.buf@, old(self).pos() as int) == head_end_from(
                    self.buf@,
                    i as int,
                ),
            ensures
                hit ==> i < end && head_end_from(self.buf@, old(self).pos() as int) == Some(
                    i as int,
                ),
                !hit ==> head_end_from(self.buf@, old(self).pos() as int) is None,
            decreases end - i,
        {
            if self.buf[i] == CR && self.buf[i + 1] == LF && self.buf[i + 2] == CR && self.buf[i
                + 3] == LF {
                hit = true;
                break;
            }
            i = i + 1;
        }
        if hit {
            self.pos = i + 4;
            self.ended = true;
        }
        hit
    }

    /// Parses the head found. A `100 Continue` head is dropped: the scanner
    /// starts over with the bytes that followed it. Otherwise gives the head
    /// and the bytes of the body that came with it.
    pub fn parse(&mut self) -> (r: Result<Option<(ResponseHead, Vec<u8>)>, HeadError>)
        requires
            old(self).well_formed(),
        ensures
            final(self).well_formed(),
            ({
                let head = old(self).buffered().take(old(self).pos() as int);
                let body = old(self).buffered().skip(old(self).pos() as int);
                match parsed_response_head(head) {
                    None => r == Err::<Option<(ResponseHead, Vec<u8>)>, HeadError>(
                        HeadError::Malformed,
                    ) && *final(self) == *old(self),
                    Some((code, version, headers)) => match code {
                        None => r == Err::<Option<(ResponseHead, Vec<u8>)>, HeadError>(
                            HeadError::NoStatus,
                        ) && *final(self) == *old(self),
                        Some(c) => if c == CONTINUE {
                            &&& r == Ok::<Option<(ResponseHead, Vec<u8>)>, HeadError>(None)
                            &&& final(self).buffered() == body
                            &&& final(self).pos() == 0
                            &&& !final(self).ended()
                        } else {
                            &&& r matches Ok(Some((h, b)))
                            &&& h.status == c
                            &&& h.version == version_of(version)
                            &&& header_views(h.headers@) == headers
                            &&& b@ == body
                            &&& *final(self) == *old(self)
                        },
                    },
                }
            }),
    {
        let (header_part, body_part) = self.split_parts();
        let body = vstd::slice::slice_to_vec(body_part);
        let parsed = parse_response_head(header_part);
        match interpret_head(parsed) {
            HeadVerdict::Invalid(err) => Err(err),
            HeadVerdict::Continue => {
                let mut new_header = Vec::with_capacity(MAX_HEADER_SIZE);
                let mut rest = body;
                new_header.append(&mut rest);
                self.reset(new_header);
                Ok(None)
            },
            HeadVerdict::Final(head) => Ok(Some((head, body))),
        }
    }

    /// Moves the search position back by `n` bytes, not below the start.
    pub fn move_back(&mut self, n: usize)
        requires
            old(self).well_formed(),
        ensures
            final(self).well_formed(),
            final(self).buffered() == old(self).buffered(),
            final(self).ended() == old(self).ended(),
            final(self).pos() == (if old(self).pos() >= n {
                old(self).pos() - n
            } else {
                0
            }),
    {
        self.pos = self.pos.saturating_sub(n);
    }

    /// Starts over with `buffer` as the collected bytes.
    pub fn reset(&mut self, buffer: Vec<u8>)
        ensures
            final(self).well_formed(),
            final(self).buffered() == buffer@,
            final(self).pos() == 0,
            !final(self).ended(),
    {
        self.ended = false;
        self.pos = 0;
        self.buf = buffer;
    }
}

/// What to do with one piece of a relayed response.
#[derive(Debug)]
pub enum ResponseStep {
    /// The client sent an empty piece: the response is over.
    Finish,
    /// The head is complete: answer the user with it, then with the bytes of
    /// the body that came along.
    Head(ResponseHead, Vec<u8>),
    /// The head is unusable: answer the user with an error; the relay ends.
    Failed(HeadError),
    /// A piece of the body: pass it on.
    Body(Vec<u8>),
    /// The head is not complete yet, or an interim response was dropped:
    /// wait for the next piece.
    Wait,
}

/// The state of a scanner as plain values.
pub ghost struct ScanState {
    pub buf: Seq<u8>,
    pub ended: bool,
    pub pos: nat,
}

/// What a step of relaying a response decides, as plain values.
pub ghost enum StepKind {
    Finish,
    Head(u16, HttpVersion, Seq<(Seq<char>, Seq<u8>)>, Seq<u8>),
    Failed(HeadError),
    Body(Seq<u8>),
    Wait,
}

impl ResponseHeaderScanner {
    /// The state of this scanner as plain values.
    pub open spec fn state(&self) -> ScanState {
        ScanState { buf: self.buffered(), ended: self.ended(), pos: self.pos() }
    }
}

/// A step decision as plain values.
pub open spec fn step_view(r: ResponseStep) -> StepKind {
    match r {
        ResponseStep::Finish => StepKind::Finish,
        ResponseStep::Head(h, b) => StepKind::Head(h.status, h.version, header_views(h.headers@), b@),
        ResponseStep::Failed(e) => StepKind::Failed(e),
        ResponseStep::Body(b) => StepKind::Body(b@),
        ResponseStep::Wait => StepKind::Wait,
    }
}

/// The state of a scanner that has seen nothing.
pub open spec fn initial_scan() -> ScanState {
    ScanState { buf: Seq::empty(), ended: false, pos: 0 }
}

/// One step of relaying a response: the next state and the decision for
/// the piece `data`. An empty piece ends the relay; once the head was found
/// every piece is body. Otherwise the piece is added to the bytes collected
/// and the end of the head is looked for from the search position: when
/// missing, the search position moves back by up to four bytes and the
/// relay waits; when found, the head is parsed: an unusable head fails the
/// relay, an interim `100` head is dropped and the search starts over on
/// the bytes after it, a final head is relayed with the start of the body.
pub open spec fn step_spec(st: ScanState, data: Seq<u8>) -> (ScanState, StepKind) {
    if data.len() == 0 {
        (st, StepKind::Finish)
    } else if st.ended {
        (st, StepKind::Body(data))
    } else {
        let s = st.buf + data;
        match head_end_from(s, st.pos as int) {
            None => (
                ScanState {
                    buf: s,
                    ended: false,
                    pos: if st.pos >= 4 {
                        (st.pos - 4) as nat
                    } else {
                        0
                    },
                },
                StepKind::Wait,
            ),
            Some(k) => {
                let head = s.take(k + 4);
                let body = s.skip(k + 4);
                let found = ScanState { buf: s, ended: true, pos: (k + 4) as nat };
                match parsed_response_head(head) {
                    None => (found, StepKind::Failed(HeadError::Malformed)),
                    Some((code, version, headers)) => match code {
                        None => (found, StepKind::Failed(HeadError::NoStatus)),
                        Some(c) => if c == CONTINUE {
                            (ScanState { buf: body, ended: false, pos: 0 }, StepKind::Wait)
                        } else {
                            (found, StepKind::Head(c, version_of(version), headers, body))
                        },
                    },
                }
            },
        }
    }
}

/// While the head is incomplete, the scanner keeps every byte it received
/// and searches from the first one.
pub proof fn lemma_incomplete_head_keeps_everything(st: ScanState, data: Seq<u8>)
    requires
        !st.ended,
        st.pos == 0,
        data.len() > 0,
        head_end_from(st.buf + data, 0) is None,
    ensures
        step_spec(st, data) == (ScanState { buf: st.buf + data, ended: false, pos: 0 }, StepKind::Wait),
{
}

/// The pieces of a response joined into one.
pub open spec fn joined(pieces: Seq<Seq<u8>>) -> Seq<u8>
    decreases pieces.len(),
{
    if pieces.len() == 0 {
        Seq::empty()
    } else {
        pieces[0] + joined(pieces.drop_first())
    }
}

/// Relaying `pieces` one after another from the state `st`: the state after
/// the last piece and the decision on it.
pub open spec fn relay(st: ScanState, pieces: Seq<Seq<u8>>) -> (ScanState, StepKind)
    decreases pieces.len(),
{
    if pieces.len() == 0 {
        (st, StepKind::Wait)
    } else if pieces.len() == 1 {
        step_spec(st, pieces[0])
    } else {
        relay(step_spec(st, pieces[0]).0, pieces.drop_first())
    }
}

/// Joining the first `k + 1` pieces is the first piece followed by the next
/// `k` pieces joined.
proof fn lemma_joined_take(pieces: Seq<Seq<u8>>, k: int)
    requires
        0 <= k < pieces.len(),
    ensures
        joined(pieces.take(k + 1)) == pieces[0] + joined(pieces.drop_first().take(k)),
{
    assert(pieces.take(k + 1).drop_first() =~= pieces.drop_first().take(k));
}

/// Relaying nonempty pieces from a state that holds `buf` and searches from
/// its start, when no proper prefix of the pieces completes the head, ends
/// as relaying them joined.
proof fn lemma_relay_from(buf: Seq<u8>, pieces: Seq<Seq<u8>>)
    requires
        pieces.len() > 0,
        forall|i: int| 0 <= i < pieces.len() ==> #[trigger] pieces[i].len() > 0,
        forall|k: int|
            1 <= k < pieces.len() ==> head_end_from(buf + #[trigger] joined(pieces.take(k)), 0) is None,
    ensures
        relay(ScanState { buf, ended: false, pos: 0 }, pieces) == step_spec(
            ScanState { buf, ended: false, pos: 0 },
            joined(pieces),
        ),
    decreases pieces.len(),
{
    let st = ScanState { buf, ended: false, pos: 0 };
    let rest = pieces.drop_first();
    if pieces.len() == 1 {
        assert(joined(rest) =~= Seq::<u8>::empty());
        assert(joined(pieces) =~= pieces[0]);
    } else {
        lemma_joined_take(pieces, 0);
        assert(pieces.drop_first().take(0) =~= Seq::<Seq<u8>>::empty());
        assert(joined(pieces.take(1)) =~= pieces[0]);
        assert(head_end_from(buf + pieces[0], 0) is None);
        lemma_incomplete_head_keeps_everything(st, pieces[0]);
        let next = buf + pieces[0];
        assert forall|k: int| 1 <= k < rest.len() implies head_end_from(
            next + #[trigger] joined(rest.take(k)),
            0,
        ) is None by {
            lemma_joined_take(pieces, k);
            assert(next + joined(rest.take(k)) =~= buf + joined(pieces.take(k + 1)));
        }
        assert forall|i: int| 0 <= i < rest.len() implies #[trigger] rest[i].len() > 0 by {
            assert(rest[i] == pieces[i + 1]);
        }
        lemma_relay_from(next, rest);
        assert(rest[0].len() > 0);
        assert(joined(rest) =~= rest[0] + joined(rest.drop_first()));
        assert(next + joined(rest) =~= buf + joined(pieces));
    }
}

/// A response that comes in any number of nonempty pieces, none of which
/// but the last completes the head, is relayed as if it came in one piece:
/// the decision on the last piece, and the state after it, are those on the
/// whole response.
pub proof fn lemma_pieces_relayed_as_whole(pieces: Seq<Seq<u8>>)
    requires
        pieces.len() > 0,
        forall|i: int| 0 <= i < pieces.len() ==> #[trigger] pieces[i].len() > 0,
        forall|k: int| 1 <= k < pieces.len() ==> head_end_from(#[trigger] joined(pieces.take(k)), 0) is None,
    ensures
        relay(initial_scan(), pieces) == step_spec(initial_scan(), joined(pieces)),
{
    assert forall|k: int| 1 <= k < pieces.len() implies head_end_from(
        Seq::<u8>::empty() + #[trigger] joined(pieces.take(k)),
        0,
    ) is None by {
        assert(Seq::<u8>::empty() + joined(pieces.take(k)) =~= joined(pieces.take(k)));
    }
    lemma_relay_from(Seq::empty(), pieces);
}

/// An interim head `interim` (a head whose first blank line is its end and
/// whose status is `100`) that comes in one piece with the bytes `rest`
/// after it is dropped and `rest` is kept: the relay then stands where it
/// would stand had it received `rest` alone, before looking for its head.
pub proof fn lemma_interim_head_keeps_what_follows(interim: Seq<u8>, rest: Seq<u8>)
    requires
        interim.len() >= 4,
        head_end_from(interim + rest, 0) == Some(interim.len() - 4),
        parsed_response_head(interim) matches Some((code, _, _)) && code == Some(CONTINUE),
    ensures
        step_spec(initial_scan(), interim + rest) == (
            ScanState { buf: rest, ended: false, pos: 0 },
            StepKind::Wait,
        ),
{
    let s = Seq::<u8>::empty() + (interim + rest);
    assert(s =~= interim + rest);
    assert(s.take(interim.len() as int) =~= interim);
    assert(s.skip(interim.len() as int) =~= rest);
}

/// A response whose interim `100` head comes first, in one piece with the
/// bytes `rest` after it, and whose remaining pieces follow, is relayed as
/// the response without the interim head: when no earlier piece completes
/// the final head, the decision on the last piece, and the state after it,
/// are those on `rest` and the remaining pieces taken as one.
pub proof fn lemma_interim_head_dropped(interim: Seq<u8>, rest: Seq<u8>, pieces: Seq<Seq<u8>>)
    requires
        interim.len() >= 4,
        head_end_from(interim + rest, 0) == Some(interim.len() - 4),
        parsed_response_head(interim) matches Some((code, _, _)) && code == Some(CONTINUE),
        pieces.len() > 0,
        forall|i: int| 0 <= i < pieces.len() ==> #[trigger] pieces[i].len() > 0,
        forall|k: int|
            1 <= k < pieces.len() ==> head_end_from(rest + #[trigger] joined(pieces.take(k)), 0) is None,
    ensures
        relay(initial_scan(), seq![interim + rest] + pieces) == step_spec(
            initial_scan(),
            rest + joined(pieces),
        ),
{
    lemma_interim_head_keeps_what_follows(interim, rest);
    let all = seq![interim + rest] + pieces;
    assert(all[0] == interim + rest);
    assert(all.drop_first() =~= pieces);
    lemma_relay_from(rest, pieces);
    assert(pieces[0].len() > 0);
    assert(joined(pieces) =~= pieces[0] + joined(pieces.drop_first()));
    assert(Seq::<u8>::empty() + (rest + joined(pieces)) =~= rest + joined(pieces));
}

/// The decision ends the relay.
pub open spec fn ends_relay(d: StepKind) -> bool {
    d is Finish || d is Failed
}

/// The decision on a piece once the head was found: an empty piece ends the
/// relay, any other is body.
pub open spec fn after_head(piece: Seq<u8>) -> StepKind {
    if piece.len() == 0 {
        StepKind::Finish
    } else {
        StepKind::Body(piece)
    }
}

/// The decisions on the pieces of a response relayed from `st`, in order, up
/// to and including the one that ends the relay.
pub open spec fn relay_decisions(st: ScanState, pieces: Seq<Seq<u8>>) -> Seq<StepKind>
    decreases pieces.len(),
{
    if pieces.len() == 0 {
        Seq::empty()
    } else {
        let (next, d) = step_spec(st, pieces[0]);
        if ends_relay(d) {
            seq![d]
        } else {
            seq![d] + relay_decisions(next, pieces.drop_first())
        }
    }
}

/// Once the head was found, every piece is body in the order it came, until
/// an empty piece ends the relay.
proof fn lemma_relay_after_head(st: ScanState, pieces: Seq<Seq<u8>>)
    requires
        st.ended,
    ensures
        relay_decisions(st, pieces).len() <= pieces.len(),
        forall|j: int|
            0 <= j < relay_decisions(st, pieces).len() ==> #[trigger] relay_decisions(st, pieces)[j]
                == after_head(pieces[j]),
    decreases pieces.len(),
{
    if pieces.len() > 0 {
        let tail = pieces.drop_first();
        lemma_relay_after_head(st, tail);
        let ds = relay_decisions(st, pieces);
        if !ends_relay(step_spec(st, pieces[0]).1) {
            assert forall|j: int| 0 <= j < ds.len() implies #[trigger] ds[j] == after_head(
                pieces[j],
            ) by {
                if j > 0 {
                    assert(ds[j] == relay_decisions(st, tail)[j - 1]);
                    assert(pieces[j] == tail[j - 1]);
                }
            }
        }
    }
}

/// A relayed response gets at most one head: after the decision that
/// relays the head, every later decision passes the piece at its place on
/// as body, in the order the pieces came, until an empty piece ends the
/// relay; and no decision follows one that ends it.
pub proof fn lemma_relay_runs_in_order(st: ScanState, pieces: Seq<Seq<u8>>)
    ensures
        relay_decisions(st, pieces).len() <= pieces.len(),
        forall|i: int|
            0 <= i < relay_decisions(st, pieces).len() - 1 ==> !ends_relay(
                #[trigger] relay_decisions(st, pieces)[i],
            ),
        forall|i: int, j: int|
            0 <= i < j < relay_decisions(st, pieces).len() && relay_decisions(st, pieces)[i] is Head
                ==> relay_decisions(st, pieces)[j] == after_head(pieces[j]),
        forall|i: int, j: int|
            0 <= i < j < relay_decisions(st, pieces).len() && relay_decisions(st, pieces)[i] is Head
                ==> !(relay_decisions(st, pieces)[j] is Head),
    decreases pieces.len(),
{
    if pieces.len() > 0 {
        let (next, d) = step_spec(st, pieces[0]);
        let tail = pieces.drop_first();
        let ds = relay_decisions(st, pieces);
        if !ends_relay(d) {
            lemma_relay_runs_in_order(next, tail);
            let rest = relay_decisions(next, tail);
            assert(ds == seq![d] + rest);
            if d is Head {
                lemma_relay_after_head(next, tail);
            }
            assert forall|i: int| 0 <= i < ds.len() - 1 implies !ends_relay(#[trigger] ds[i]) by {
                if i > 0 {
                    assert(ds[i] == rest[i - 1]);
                }
            }
            assert forall|i: int, j: int|
                0 <= i < j < ds.len() && ds[i] is Head implies ds[j] == after_head(pieces[j]) by {
                assert(ds[j] == rest[j - 1]);
                assert(pieces[j] == tail[j - 1]);
                if i > 0 {
                    assert(ds[i] == rest[i - 1]);
                }
            }
            assert forall|i: int, j: int|
                0 <= i < j < ds.len() && ds[i] is Head implies !(ds[j] is Head) by {
                assert(ds[j] == rest[j - 1]);
                assert(pieces[j] == tail[j - 1]);
                if i > 0 {
                    assert(ds[i] == rest[i - 1]);
                }
            }
        }
    }
}

/// One step of relaying a response: what to do with the next piece `data`
/// that the client sent, given the bytes collected so far.
pub fn receive_response_step(scanner: &mut ResponseHeaderScanner, data: Vec<u8>) -> (r: ResponseStep)
    requires
        old(scanner).well_formed(),
    ensures
        final(scanner).well_formed(),
        (final(scanner).state(), step_view(r)) == step_spec(old(scanner).state(), data@),
{
    if data.len() == 0 {
        return ResponseStep::Finish;
    }
    if scanner.is_ended() {
        return ResponseStep::Body(data);
    }
    if scanner.scan(data) {
        match scanner.parse() {
            Err(err) => ResponseStep::Failed(err),
            Ok(None) => ResponseStep::Wait,
            Ok(Some((head, body))) => ResponseStep::Head(head, body),
        }
    } else {
        scanner.move_back(4);
        ResponseStep::Wait
    }
}

/// `\r\n`, which ends a line of an http head.
pub open spec fn crlf() -> Seq<u8> {
    seq![CR, LF]
}

/// The lines `name: value` of the header fields, in order.
pub open spec fn header_lines(headers: Seq<(Seq<u8>, Seq<u8>)>) -> Seq<u8>
    decreases headers.len(),
{
    if headers.len() == 0 {
        Seq::empty()
    } else {
        header_lines(headers.drop_last()) + headers.last().0 + seq![58u8, 32u8] + headers.last().1
            + crlf()
    }
}

/// The head of a request as it is relayed: the request line
/// `method uri version`, one line per header field, and an empty line.
pub open spec fn request_head(
    method: Seq<u8>,
    uri: Seq<u8>,
    version: Seq<u8>,
    headers: Seq<(Seq<u8>, Seq<u8>)>,
) -> Seq<u8> {
    method + seq![32u8] + uri + seq![32u8] + version + crlf() + header_lines(headers) + crlf()
}

/// The header fields of a request, as bytes.
pub open spec fn header_bytes(headers: Seq<(String, String)>) -> Seq<(Seq<u8>, Seq<u8>)> {
    headers.map_values(|h: (String, String)| (encode_utf8(h.0@), encode_utf8(h.1@)))
}

/// Appends `bytes` to `out`.
pub fn push_bytes(out: &mut Vec<u8>, bytes: &[u8])
    ensures
        final(out)@ == old(out)@ + bytes@,
{
    let mut i: usize = 0;
    while i < bytes.len()
        invariant
            0 <= i <= bytes@.len(),
            out@ == old(out)@ + bytes@.take(i as int),
        decreases bytes.len() - i,
    {
        out.push(bytes[i]);
        i = i + 1;
        proof {
            assert(bytes@.take(i as int) == bytes@.take(i - 1) + seq![bytes@[i - 1]]);
        }
    }
    proof {
        assert(bytes@.take(bytes@.len() as int) == bytes@);
    }
}

/// The head of a request to relay to the client, e.g.
/// `GET / HTTP/1.1\r\nhost: example.com\r\n\r\n`: `version` is the
/// written form of the http version, `headers` the header fields in order.
pub fn request_head_bytes(method: &str, uri: &str, version: &str, headers: &Vec<(String, String)>) -> (r:
    Vec<u8>)
    ensures
        r@ == request_head(
            method.spec_bytes(),
            uri.spec_bytes(),
            version.spec_bytes(),
            header_bytes(headers@),
        ),
{
    let mut out: Vec<u8> = Vec::new();
    push_bytes(&mut out, method.as_bytes());
    out.push(32);
    push_bytes(&mut out, uri.as_bytes());
    out.push(32);
    push_bytes(&mut out, version.as_bytes());
    out.push(CR);
    out.push(LF);
    let ghost start = out@;
    let mut i: usize = 0;
    while i < headers.len()
        invariant
            0 <= i <= headers@.len(),
            out@ == start + header_lines(header_bytes(headers@).take(i as int)),
        decreases headers.len() - i,
    {
        let (name, value) = &headers[i];
        push_bytes(&mut out, name.as_str().as_bytes());
        out.push(58);
        out.push(32);
        push_bytes(&mut out, value.as_str().as_bytes());
        out.push(CR);
        out.push(LF);
        proof {
            let hb = header_bytes(headers@);
            assert(hb.take(i + 1).drop_last() == hb.take(i as int));
        }
        i = i + 1;
    }
    out.push(CR);
    out.push(LF);
    proof {
        assert(header_bytes(headers@).take(headers@.len() as int) == header_bytes(headers@));
    }
    out
}

/// Why the vhttp server answers a user itself instead of relaying.
#[derive(Clone, Copy, Debug, PartialEq, Eq, Structural)]
pub enum LocalReply {
    /// No tunnel serves the host of the request.
    NotFound,
    /// The client of the tunnel went away before answering.
    ClientCancelled,
    /// The client's response head was unusable.
    BadResponseHead,
}

impl LocalReply {
    /// The status code of the reply.
    pub open spec fn status_of(self) -> u16 {
        match self {
            LocalReply::NotFound => 404,
            LocalReply::ClientCancelled => 500,
            LocalReply::BadResponseHead => 500,
        }
    }

    /// A local reply is an error: a request for a host that no tunnel serves
    /// is the client's error `404`; a client that went away or answered
    /// with an unusable head is the server's error `500`.
    pub proof fn lemma_local_replies_are_errors(reply: LocalReply)
        ensures
            400 <= reply.status_of() < 600,
            reply.status_of() < 500 <==> reply == LocalReply::NotFound,
            reply == LocalReply::NotFound ==> reply.status_of() == 404,
            reply != LocalReply::NotFound ==> reply.status_of() == 500,
    {
    }

    /// The status code and the body of the reply.
    pub fn status_and_body(&self) -> (r: (u16, &'static str))
        ensures
            r.0 == self.status_of(),
            *self == LocalReply::NotFound ==> r.1@ == "not found"@,
            *self == LocalReply::ClientCancelled ==> r.1@ == "client cancelled"@,
            *self == LocalReply::BadResponseHead ==> r.1@ == "failed to get response builder"@,
    {
        match self {
            LocalReply::NotFound => (404, "not found"),
            LocalReply::ClientCancelled => (500, "client cancelled"),
            LocalReply::BadResponseHead => (500, "failed to get response builder"),
        }
    }
}

} // verus!
