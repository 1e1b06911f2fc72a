//! Progress records: the chunks of a tool's output stream that end at a
//! carriage return or a line feed.

use vstd::prelude::*;

verus! {

/// Carriage return.
pub const CR: u8 = 0x0d;

/// Line feed.
pub const LF: u8 = 0x0a;

/// Whether a byte ends a record.
pub open spec fn is_delimiter(b: u8) -> bool {
    b == CR || b == LF
}

/// What a reader holds after it has consumed some bytes: the records that
/// are complete, in arrival order, and the bytes of the record still open.
pub struct Scan {
    pub complete: Seq<Seq<u8>>,
    pub partial: Seq<u8>,
}

/// The state of a reader that has consumed nothing.
pub open spec fn empty_scan() -> Scan {
    Scan { complete: Seq::empty(), partial: Seq::empty() }
}

/// Consuming one byte: a delimiter closes the open record, any other byte
/// extends it.
pub open spec fn scan_byte(st: Scan, b: u8) -> Scan {
    if is_delimiter(b) {
        Scan { complete: st.complete.push(st.partial), partial: Seq::empty() }
    } else {
        Scan { complete: st.complete, partial: st.partial.push(b) }
    }
}

/// Consuming the bytes of `s`, in order, starting from `st`.
pub open spec fn scan_from(st: Scan, s: Seq<u8>) -> Scan
    decreases s.len(),
{
    if s.len() == 0 {
        st
    } else {
        scan_byte(scan_from(st, s.drop_last()), s.last())
    }
}

/// The state of a reader that has consumed exactly `s`.
pub open spec fn scan(s: Seq<u8>) -> Scan {
    scan_from(empty_scan(), s)
}

/// The records of a stream that has ended: every complete record, then the
/// open one if it holds any byte.
pub open spec fn records_of(s: Seq<u8>) -> Seq<Seq<u8>> {
    let st = scan(s);
    if st.partial.len() > 0 {
        st.complete.push(st.partial)
    } else {
        st.complete
    }
}

/// The byte sequences held by a vector of records.
pub open spec fn record_views(v: Seq<Vec<u8>>) -> Seq<Seq<u8>> {
    Seq::new(v.len(), |i: int| v[i]@)
}

/// Two streams agree up to the choice of delimiter: they have delimiters at
/// the same places and the same bytes everywhere else.
pub open spec fn same_up_to_delimiters(s: Seq<u8>, t: Seq<u8>) -> bool {
    &&& s.len() == t.len()
    &&& forall|i: int|
        0 <= i < s.len() ==> (is_delimiter(#[trigger] s[i]) <==> is_delimiter(t[i]))
    &&& forall|i: int| 0 <= i < s.len() && !is_delimiter(#[trigger] s[i]) ==> s[i] == t[i]
}

/// Reading a stream in two pieces gives what reading it whole gives: the
/// record left open by the first piece is carried into the second.
pub proof fn lemma_scan_chunks(st: Scan, a: Seq<u8>, b: Seq<u8>)
    ensures
        scan_from(scan_from(st, a), b) == scan_from(st, a + b),
    decreases b.len(),
{
    if b.len() == 0 {
        assert(a + b =~= a);
    } else {
        lemma_scan_chunks(st, a, b.drop_last());
        assert((a + b).drop_last() =~= a + b.drop_last());
        assert((a + b).last() == b.last());
    }
}

/// Which of the two delimiters ends a record makes no difference to the
/// records: streams that agree up to the choice of delimiter, mixed or not,
/// are read alike.
pub proof fn lemma_delimiter_choice(s: Seq<u8>, t: Seq<u8>)
    requires
        same_up_to_delimiters(s, t),
    ensures
        scan(s) == scan(t),
        records_of(s) == records_of(t),
    decreases s.len(),
{
    if s.len() > 0 {
        let s0 = s.drop_last();
        let t0 = t.drop_last();
        assert forall|i: int| 0 <= i < s0.len() implies (is_delimiter(#[trigger] s0[i])
            <==> is_delimiter(t0[i])) by {
            assert(s0[i] == s[i]);
        }
        assert forall|i: int| 0 <= i < s0.len() && !is_delimiter(#[trigger] s0[i]) implies s0[i]
            == t0[i] by {
            assert(s0[i] == s[i]);
        }
        lemma_delimiter_choice(s0, t0);
        assert(is_delimiter(s[s.len() - 1]) <==> is_delimiter(t[s.len() - 1]));
    }
}

/// Whether a record holds no delimiter.
pub open spec fn delimiter_free(r: Seq<u8>) -> bool {
    forall|j: int| 0 <= j < r.len() ==> !is_delimiter(#[trigger] r[j])
}

/// No complete record and no open record holds a delimiter.
pub proof fn lemma_records_hold_no_delimiter(s: Seq<u8>)
    ensures
        forall|k: int|
            0 <= k < scan(s).complete.len() ==> delimiter_free(#[trigger] scan(s).complete[k]),
        delimiter_free(scan(s).partial),
    decreases s.len(),
{
    if s.len() > 0 {
        let before = scan(s.drop_last());
        lemma_records_hold_no_delimiter(s.drop_last());
        assert(scan(s) == scan_byte(before, s.last()));
        if is_delimiter(s.last()) {
            assert forall|k: int| 0 <= k < scan(s).complete.len() implies delimiter_free(
                #[trigger] scan(s).complete[k],
            ) by {
                if k < before.complete.len() {
                    assert(scan(s).complete[k] == before.complete[k]);
                } else {
                    assert(scan(s).complete[k] == before.partial);
                }
            }
        } else {
            assert forall|j: int| 0 <= j < scan(s).partial.len() implies !is_delimiter(
                #[trigger] scan(s).partial[j],
            ) by {
                if j < before.partial.len() {
                    assert(scan(s).partial[j] == before.partial[j]);
                }
            }
        }
    }
}

/// A reader that is handed a stream piece by piece and gives out each record
/// as soon as its delimiter has arrived.
pub struct RecordBuffer {
    pending: Vec<u8>,
}

impl RecordBuffer {
    /// The bytes of the record still open.
    pub closed spec fn view(&self) -> Seq<u8> {
        self.pending@
    }

    /// A reader that has consumed nothing.
    pub fn new() -> (r: Self)
        ensures
            r@ == Seq::<u8>::empty(),
    {
        RecordBuffer { pending: Vec::new() }
    }

    /// Consumes `chunk` and returns the records that it completes, the first
    /// of them starting with the bytes that were pending.
    pub fn feed(&mut self, chunk: &[u8]) -> (out: Vec<Vec<u8>>)
        ensures
            record_views(out@) == scan_from(
                Scan { complete: Seq::empty(), partial: old(self)@ },
                chunk@,
            ).complete,
            final(self)@ == scan_from(
                Scan { complete: Seq::empty(), partial: old(self)@ },
                chunk@,
            ).partial,
    {
        let ghost start = Scan { complete: Seq::empty(), partial: self.pending@ };
        let mut out: Vec<Vec<u8>> = Vec::new();
        let mut i: usize = 0;
        assert(record_views(out@) =~= start.complete);
        assert(chunk@.take(0) =~= Seq::<u8>::empty());
        while i < chunk.len()
            invariant
                0 <= i <= chunk.len(),
                record_views(out@) == scan_from(start, chunk@.take(i as int)).complete,
                self.pending@ == scan_from(start, chunk@.take(i as int)).partial,
            decreases chunk.len() - i,
        {
            let b = chunk[i];
            proof {
                let next = chunk@.take(i as int + 1);
                assert(next.drop_last() =~= chunk@.take(i as int));
                assert(next.last() == b);
            }
            if b == CR || b == LF {
                let ghost before = record_views(out@);
                let ghost closed = self.pending@;
                let mut done: Vec<u8> = Vec::new();
                std::mem::swap(&mut self.pending, &mut done);
                out.push(done);
                assert(record_views(out@) =~= before.push(closed));
            } else {
                self.pending.push(b);
            }
            i = i + 1;
        }
        assert(chunk@.take(i as int) =~= chunk@);
        out
    }

    /// Ends the stream: the open record, if it holds any byte.
    pub fn finish(self) -> (last: Option<Vec<u8>>)
        ensures
            self@.len() == 0 <==> last is None,
            last is Some ==> last->0@ == self@,
    {
        if self.pending.len() == 0 {
            None
        } else {
            Some(self.pending)
        }
    }
}

/// The records of a whole stream.
pub fn split_records(bytes: &[u8]) -> (out: Vec<Vec<u8>>)
    ensures
        record_views(out@) == records_of(bytes@),
{
    let mut reader = RecordBuffer::new();
    let mut out = reader.feed(bytes);
    let ghost complete = record_views(out@);
    let ghost open = reader@;
    match reader.finish() {
        Some(last) => {
            out.push(last);
            assert(record_views(out@) =~= complete.push(open));
        },
        None => {},
    }
    out
}

} // verus!
