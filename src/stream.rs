//! Framing of a newline-delimited body: bytes arrive in chunks of any size and
//! leave as trimmed, non-empty lines, holding back only the unterminated tail.
use vstd::prelude::*;

verus! {

/// Marks an input record that always becomes exactly one row.
pub trait SingleRowInput {}

/// The bytes that are trimmed from both ends of a line: space, tab, CR, LF.
pub open spec fn is_frame_space(b: u8) -> bool {
    b == 0x20u8 || b == 0x09u8 || b == 0x0du8 || b == 0x0au8
}

/// `s` without its leading frame spaces.
pub open spec fn trim_front(s: Seq<u8>) -> Seq<u8>
    decreases s.len(),
{
    if s.len() > 0 && is_frame_space(s[0]) {
        trim_front(s.drop_first())
    } else {
        s
    }
}

/// `s` without its trailing frame spaces.
pub open spec fn trim_back(s: Seq<u8>) -> Seq<u8>
    decreases s.len(),
{
    if s.len() > 0 && is_frame_space(s.last()) {
        trim_back(s.drop_last())
    } else {
        s
    }
}

/// A line without its leading and trailing frame spaces.
pub open spec fn trim_line(s: Seq<u8>) -> Seq<u8> {
    trim_back(trim_front(s))
}

/// Index of the last newline in `s`, or -1 when there is none.
pub open spec fn last_newline(s: Seq<u8>) -> int
    decreases s.len(),
{
    if s.len() == 0 {
        -1
    } else if s.last() == 0x0au8 {
        s.len() - 1
    } else {
        last_newline(s.drop_last())
    }
}

/// The lines of a text in which every line ends in a newline, without the
/// newlines.
pub open spec fn terminated_lines(s: Seq<u8>) -> Seq<Seq<u8>>
    decreases s.len(),
{
    if s.len() == 0 {
        Seq::empty()
    } else {
        let body = s.drop_last();
        let k = last_newline(body);
        if 0 <= k + 1 <= body.len() {
            terminated_lines(body.subrange(0, k + 1)).push(body.subrange(k + 1, body.len() as int))
        } else {
            Seq::empty()
        }
    }
}

/// The part of `s` up to and including its last newline.
pub open spec fn head_of(s: Seq<u8>) -> Seq<u8> {
    s.subrange(0, last_newline(s) + 1)
}

/// The part of `s` after its last newline.
pub open spec fn tail_of(s: Seq<u8>) -> Seq<u8> {
    s.subrange(last_newline(s) + 1, s.len() as int)
}

/// The lines handed on: each trimmed, the empty ones left out, order kept.
pub open spec fn emitted(lines: Seq<Seq<u8>>) -> Seq<Seq<u8>>
    decreases lines.len(),
{
    if lines.len() == 0 {
        Seq::empty()
    } else {
        let rest = emitted(lines.drop_last());
        let t = trim_line(lines.last());
        if t.len() > 0 {
            rest.push(t)
        } else {
            rest
        }
    }
}

/// Every line that a whole body yields: its complete lines, then its
/// unterminated tail when that is not blank.
pub open spec fn body_lines(body: Seq<u8>) -> Seq<Seq<u8>> {
    let t = trim_line(tail_of(body));
    if t.len() > 0 {
        emitted(terminated_lines(head_of(body))).push(t)
    } else {
        emitted(terminated_lines(head_of(body)))
    }
}

/// The byte contents of a list of lines.
pub open spec fn views_of(lines: Seq<Vec<u8>>) -> Seq<Seq<u8>> {
    Seq::new(lines.len(), |i: int| lines[i]@)
}

proof fn lemma_last_newline_bounds(s: Seq<u8>)
    ensures
        -1 <= last_newline(s) < s.len(),
        last_newline(s) >= 0 ==> s[last_newline(s)] == 0x0au8,
        forall|j: int| last_newline(s) < j < s.len() ==> s[j] != 0x0au8,
    decreases s.len(),
{
    if s.len() > 0 && s.last() != 0x0au8 {
        lemma_last_newline_bounds(s.drop_last());
        assert forall|j: int| last_newline(s) < j < s.len() implies s[j] != 0x0au8 by {
            if j < s.len() - 1 {
                assert(s.drop_last()[j] == s[j]);
            }
        }
    }
}

proof fn lemma_last_newline_is(s: Seq<u8>, j: int)
    requires
        -1 <= j < s.len(),
        j >= 0 ==> s[j] == 0x0au8,
        forall|m: int| j < m < s.len() ==> s[m] != 0x0au8,
    ensures
        last_newline(s) == j,
    decreases s.len(),
{
    if s.len() > 0 && j != s.len() - 1 {
        assert(s.last() != 0x0au8);
        let d = s.drop_last();
        assert forall|m: int| j < m < d.len() implies d[m] != 0x0au8 by {
            assert(d[m] == s[m]);
        }
        lemma_last_newline_is(d, j);
    }
}

proof fn lemma_terminated_step(all: Seq<u8>, start: int, i: int)
    requires
        0 <= start <= i < all.len(),
        all[i] == 0x0au8,
        start == 0 || all[start - 1] == 0x0au8,
        forall|m: int| start <= m < i ==> all[m] != 0x0au8,
    ensures
        terminated_lines(all.subrange(0, i + 1)) == terminated_lines(all.subrange(0, start)).push(
            all.subrange(start, i),
        ),
{
    let s = all.subrange(0, i + 1);
    let body = s.drop_last();
    assert(body =~= all.subrange(0, i));
    lemma_last_newline_is(body, start - 1);
    assert(body.subrange(0, start) =~= all.subrange(0, start));
    assert(body.subrange(start, body.len() as int) =~= all.subrange(start, i));
}

proof fn lemma_emitted_push(lines: Seq<Seq<u8>>, x: Seq<u8>)
    ensures
        emitted(lines.push(x)) == (if trim_line(x).len() > 0 {
            emitted(lines).push(trim_line(x))
        } else {
            emitted(lines)
        }),
{
    assert(lines.push(x).drop_last() =~= lines);
}

proof fn lemma_last_newline_concat(u: Seq<u8>, w: Seq<u8>)
    ensures
        last_newline(u + w) == (if last_newline(w) >= 0 {
            u.len() + last_newline(w)
        } else {
            last_newline(u)
        }),
    decreases w.len(),
{
    if w.len() == 0 {
        assert(u + w =~= u);
    } else {
        assert((u + w).drop_last() =~= u + w.drop_last());
        assert((u + w).last() == w.last());
        lemma_last_newline_concat(u, w.drop_last());
    }
}

/// Empty, or ending in a newline.
pub open spec fn line_complete(s: Seq<u8>) -> bool {
    s.len() == 0 || s.last() == 0x0au8
}

proof fn lemma_terminated_concat(u: Seq<u8>, v: Seq<u8>)
    requires
        line_complete(u),
        line_complete(v),
    ensures
        terminated_lines(u + v) == terminated_lines(u) + terminated_lines(v),
    decreases v.len(),
{
    if v.len() == 0 {
        assert(u + v =~= u);
        assert(terminated_lines(u) + terminated_lines(v) =~= terminated_lines(u));
    } else {
        let body = v.drop_last();
        let whole = (u + v).drop_last();
        assert(whole =~= u + body);
        lemma_last_newline_concat(u, body);
        lemma_last_newline_bounds(body);
        lemma_last_newline_bounds(u);
        let k = last_newline(body);
        if k >= 0 {
            let front = body.subrange(0, k + 1);
            assert(whole.subrange(0, u.len() + k + 1) =~= u + front);
            assert(whole.subrange(u.len() + k + 1, whole.len() as int) =~= body.subrange(
                k + 1,
                body.len() as int,
            ));
            assert(front.last() == 0x0au8);
            lemma_terminated_concat(u, front);
            assert(terminated_lines(u + v) =~= (terminated_lines(u) + terminated_lines(front)).push(
                body.subrange(k + 1, body.len() as int),
            ));
        } else {
            if u.len() > 0 {
                lemma_last_newline_is(u, u.len() - 1);
            }
            assert(whole.subrange(0, u.len() as int) =~= u);
            assert(whole.subrange(u.len() as int, whole.len() as int) =~= body);
            assert(body.subrange(0, 0) =~= Seq::<u8>::empty());
            assert(terminated_lines(body.subrange(0, 0)) =~= Seq::<Seq<u8>>::empty());
            assert(body.subrange(0, body.len() as int) =~= body);
            assert(v.drop_last() == body);
            assert(terminated_lines(v) =~= Seq::<Seq<u8>>::empty().push(body));
            assert(terminated_lines(u + v) =~= terminated_lines(u).push(body));
        }
    }
}

proof fn lemma_emitted_concat(x: Seq<Seq<u8>>, y: Seq<Seq<u8>>)
    ensures
        emitted(x + y) == emitted(x) + emitted(y),
    decreases y.len(),
{
    if y.len() == 0 {
        assert(x + y =~= x);
        assert(emitted(x) + emitted(y) =~= emitted(x));
    } else {
        assert((x + y).drop_last() =~= x + y.drop_last());
        assert((x + y).last() == y.last());
        lemma_emitted_concat(x, y.drop_last());
        let t = trim_line(y.last());
        if t.len() > 0 {
            assert(emitted(x) + emitted(y) =~= (emitted(x) + emitted(y.drop_last())).push(t));
        }
    }
}

proof fn lemma_head_tail(x: Seq<u8>)
    ensures
        x == head_of(x) + tail_of(x),
        line_complete(head_of(x)),
        forall|j: int| 0 <= j < tail_of(x).len() ==> tail_of(x)[j] != 0x0au8,
{
    lemma_last_newline_bounds(x);
    assert(x =~= head_of(x) + tail_of(x));
    assert forall|j: int| 0 <= j < tail_of(x).len() implies tail_of(x)[j] != 0x0au8 by {
        assert(tail_of(x)[j] == x[last_newline(x) + 1 + j]);
    }
}

/// Cutting a body into chunks does not change what the decoder hands on:
/// two chunks pushed one after the other yield the lines, and leave the tail,
/// that the two pushed as one chunk do.
pub proof fn lemma_chunking_invariant(pending: Seq<u8>, a: Seq<u8>, b: Seq<u8>)
    ensures
        emitted(terminated_lines(head_of(pending + a))) + emitted(
            terminated_lines(head_of(tail_of(pending + a) + b)),
        ) == emitted(terminated_lines(head_of(pending + (a + b)))),
        tail_of(tail_of(pending + a) + b) == tail_of(pending + (a + b)),
{
    let x = pending + a;
    let h = head_of(x);
    let t = tail_of(x);
    let tb = t + b;
    lemma_head_tail(x);
    lemma_head_tail(tb);
    assert(pending + (a + b) =~= x + b);
    assert(h + tb =~= (h + t) + b);
    assert(pending + (a + b) == h + tb);
    lemma_last_newline_concat(h, tb);
    lemma_last_newline_bounds(h);
    lemma_last_newline_bounds(tb);
    if h.len() > 0 {
        lemma_last_newline_is(h, h.len() - 1);
    }
    let whole = h + tb;
    assert(head_of(whole) =~= h + head_of(tb));
    assert(tail_of(whole) =~= tail_of(tb));
    lemma_terminated_concat(h, head_of(tb));
    lemma_emitted_concat(terminated_lines(h), terminated_lines(head_of(tb)));
}

fn is_frame_space_byte(b: u8) -> (r: bool)
    ensures
        r == is_frame_space(b),
{
    b == 0x20u8 || b == 0x09u8 || b == 0x0du8 || b == 0x0au8
}

pub(crate) fn copy_range(v: &[u8], from: usize, to: usize) -> (r: Vec<u8>)
    requires
        from <= to <= v.len(),
    ensures
        r@ == v@.subrange(from as int, to as int),
{
    let mut r: Vec<u8> = Vec::with_capacity(to - from);
    let mut k: usize = from;
    while k < to
        invariant
            from <= k <= to <= v.len(),
            r@ == v@.subrange(from as int, k as int),
        decreases to - k,
    {
        r.push(v[k]);
        assert(v@.subrange(from as int, k + 1) =~= v@.subrange(from as int, k as int).push(v@[k as int]));
        k += 1;
    }
    r
}

pub(crate) fn trimmed_copy(v: &[u8], from: usize, to: usize) -> (r: Vec<u8>)
    requires
        from <= to <= v.len(),
    ensures
        r@ == trim_line(v@.subrange(from as int, to as int)),
{
    let mut a: usize = from;
    while a < to && is_frame_space_byte(v[a])
        invariant
            from <= a <= to <= v.len(),
            trim_front(v@.subrange(from as int, to as int)) == trim_front(v@.subrange(a as int, to as int)),
        decreases to - a,
    {
        assert(v@.subrange(a as int, to as int).drop_first() =~= v@.subrange(a + 1, to as int));
        a += 1;
    }
    assert(trim_front(v@.subrange(a as int, to as int)) == v@.subrange(a as int, to as int));
    let mut b: usize = to;
    while b > a && is_frame_space_byte(v[b - 1])
        invariant
            from <= a <= b <= to <= v.len(),
            trim_back(v@.subrange(a as int, to as int)) == trim_back(v@.subrange(a as int, b as int)),
        decreases b,
    {
        assert(v@.subrange(a as int, b as int).drop_last() =~= v@.subrange(a as int, b - 1));
        b -= 1;
    }
    assert(trim_back(v@.subrange(a as int, b as int)) == v@.subrange(a as int, b as int));
    copy_range(v, a, b)
}

/// Splits a chunked body into lines, keeping only the bytes after the last
/// newline seen so far.
pub struct LineDecoder {
    pending: Vec<u8>,
}

impl LineDecoder {
    /// The bytes received after the last newline.
    /// The body bytes after the last newline.
    pub closed spec fn pending(&self) -> Seq<u8> {
        self.pending@
    }

    /// The held-back bytes never contain a newline.
    /// The framing state is well formed.
    pub closed spec fn wf(&self) -> bool {
        forall|j: int| 0 <= j < self.pending@.len() ==> self.pending@[j] != 0x0au8
    }

    /// A decoder that has received nothing.
    pub fn new() -> (r: LineDecoder)
        ensures
            r.wf(),
            r.pending() == Seq::<u8>::empty(),
    {
        LineDecoder { pending: Vec::new() }
    }

    /// Takes the next chunk and returns the lines it completes, trimmed and
    /// non-empty, in order.
    pub fn push_chunk(&mut self, chunk: &[u8]) -> (lines: Vec<Vec<u8>>)
        requires
            old(self).wf(),
        ensures
            final(self).wf(),
            final(self).pending() == tail_of(old(self).pending() + chunk@),
            views_of(lines@) == emitted(terminated_lines(head_of(old(self).pending() + chunk@))),
    {
        let ghost all = self.pending@ + chunk@;
        let scan_from = self.pending.len();
        let mut k: usize = 0;
        while k < chunk.len()
            invariant
                scan_from <= self.pending@.len(),
                k <= chunk@.len(),
                all == old(self).pending@ + chunk@,
                self.pending@ == old(self).pending@ + chunk@.subrange(0, k as int),
                self.pending@.len() == scan_from + k,
                scan_from == old(self).pending@.len(),
            decreases chunk@.len() - k,
        {
            self.pending.push(chunk[k]);
            assert(chunk@.subrange(0, k + 1) =~= chunk@.subrange(0, k as int).push(chunk@[k as int]));
            k += 1;
        }
        assert(chunk@.subrange(0, k as int) =~= chunk@);
        let mut out: Vec<Vec<u8>> = Vec::new();
        let mut start: usize = 0;
        let mut i: usize = scan_from;
        assert(all.subrange(0, 0) =~= Seq::<u8>::empty());
        assert(views_of(out@) =~= Seq::<Seq<u8>>::empty());
        while i < self.pending.len()
            invariant
                self.pending@ == all,
                start <= i <= all.len(),
                start == 0 || all[start - 1] == 0x0au8,
                forall|m: int| start <= m < i ==> all[m] != 0x0au8,
                views_of(out@) == emitted(terminated_lines(all.subrange(0, start as int))),
            decreases all.len() - i,
        {
            if self.pending[i] == 0x0au8 {
                let line = trimmed_copy(self.pending.as_slice(), start, i);
                proof {
                    lemma_terminated_step(all, start as int, i as int);
                    lemma_emitted_push(
                        terminated_lines(all.subrange(0, start as int)),
                        all.subrange(start as int, i as int),
                    );
                }
                if line.len() > 0 {
                    let ghost before = out@;
                    out.push(line);
                    assert(views_of(out@) =~= views_of(before).push(line@));
                }
                start = i + 1;
            }
            i += 1;
        }
        proof {
            lemma_last_newline_is(all, start - 1);
        }
        let rest = copy_range(self.pending.as_slice(), start, self.pending.len());
        self.pending = rest;
        out
    }

    /// Ends the body: returns the unterminated tail, trimmed, unless it is
    /// blank, and forgets it.
    pub fn finish(&mut self) -> (last: Option<Vec<u8>>)
        ensures
            final(self).wf(),
            final(self).pending() == Seq::<u8>::empty(),
            last is Some <==> trim_line(old(self).pending()).len() > 0,
            last is Some ==> last->Some_0@ == trim_line(old(self).pending()),
    {
        let t = trimmed_copy(self.pending.as_slice(), 0, self.pending.len());
        assert(self.pending@.subrange(0, self.pending@.len() as int) =~= self.pending@);
        self.pending = Vec::new();
        if t.len() > 0 {
            Some(t)
        } else {
            None
        }
    }
}

} // verus!

verus! {

/// The message a successful ingestion answers with.
pub open spec fn summary_of(records: u64) -> Seq<char> {
    "Stream processed successfully: "@ + crate::text::decimal(records as nat) + " records"@
}

/// The state of one ingestion request: the line framing of its body and the
/// number of rows handed to the batcher so far.
pub struct IngestStream {
    decoder: LineDecoder,
    records: u64,
}

impl IngestStream {
    pub closed spec fn pending(&self) -> Seq<u8> {
        self.decoder.pending()
    }

    /// Rows handed to the batcher so far.
    pub closed spec fn records_sent(&self) -> u64 {
        self.records
    }

    pub closed spec fn wf(&self) -> bool {
        self.decoder.wf()
    }

    /// A request whose body has not started.
    pub fn new() -> (r: IngestStream)
        ensures
            r.wf(),
            r.pending() == Seq::<u8>::empty(),
            r.records_sent() == 0,
    {
        IngestStream { decoder: LineDecoder::new(), records: 0 }
    }

    /// The next chunk of the body: the lines it completes, in order.
    pub fn on_chunk(&mut self, chunk: &[u8]) -> (lines: Vec<Vec<u8>>)
        requires
            old(self).wf(),
        ensures
            final(self).wf(),
            final(self).pending() == tail_of(old(self).pending() + chunk@),
            final(self).records_sent() == old(self).records_sent(),
            views_of(lines@) == emitted(terminated_lines(head_of(old(self).pending() + chunk@))),
    {
        self.decoder.push_chunk(chunk)
    }

    /// The body ended: its unterminated last line, unless blank.
    pub fn on_end(&mut self) -> (last: Option<Vec<u8>>)
        requires
            old(self).wf(),
        ensures
            final(self).wf(),
            final(self).pending() == Seq::<u8>::empty(),
            final(self).records_sent() == old(self).records_sent(),
            last is Some <==> trim_line(old(self).pending()).len() > 0,
            last is Some ==> last->Some_0@ == trim_line(old(self).pending()),
    {
        self.decoder.finish()
    }

    /// `count` more rows reached the batcher.
    pub fn on_rows_sent(&mut self, count: u64)
        requires
            old(self).wf(),
        ensures
            final(self).wf(),
            final(self).pending() == old(self).pending(),
            final(self).records_sent() == (if old(self).records_sent() + count <= u64::MAX {
                old(self).records_sent() + count
            } else {
                u64::MAX as int
            }),
    {
        self.records = self.records.saturating_add(count);
    }

    /// How many rows reached the batcher.
    pub fn records(&self) -> (r: u64)
        ensures
            r == self.records_sent(),
    {
        self.records
    }

    /// The answer to a request whose whole body was ingested.
    pub fn summary(&self) -> (r: String)
        ensures
            r@ == summary_of(self.records_sent()),
    {
        let mut message = String::from_str("Stream processed successfully: ");
        crate::text::append_decimal(&mut message, self.records);
        message.append(" records");
        message
    }
}

/// The error for a body that could not be read.
pub fn read_error(detail: &str) -> (r: crate::error::AppError)
    ensures
        r.code == crate::error::ErrorCode::StreamProcessingError,
        r.message@ == "Failed to read stream chunk: "@ + detail@,
{
    let mut message = String::from_str("Failed to read stream chunk: ");
    message.append(detail);
    crate::error::AppError::new(crate::error::ErrorCode::StreamProcessingError, message)
}

/// The error for a row the batcher's channel did not take.
pub fn send_error(detail: &str) -> (r: crate::error::AppError)
    ensures
        r.code == crate::error::ErrorCode::StreamProcessingError,
        r.message@ == "Failed to send record to processor: "@ + detail@,
{
    let mut message = String::from_str("Failed to send record to processor: ");
    message.append(detail);
    crate::error::AppError::new(crate::error::ErrorCode::StreamProcessingError, message)
}

/// The error for a line that is not a JSON record of the expected shape,
/// quoting the start of the line.
pub fn decode_error(preview: &str, detail: &str) -> (r: crate::error::AppError)
    ensures
        r.code == crate::error::ErrorCode::StreamDecodingError,
        r.message@ == "Failed to parse JSON line (bytes): '"@ + preview@ + "': "@ + detail@,
{
    let mut message = String::from_str("Failed to parse JSON line (bytes): '");
    message.append(preview);
    message.append("': ");
    message.append(detail);
    crate::error::AppError::new(crate::error::ErrorCode::StreamDecodingError, message)
}

} // verus!
