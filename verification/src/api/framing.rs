//! Framing of a streamed reply: the bytes that arrive from the provider are
//! lines of text, and the lines that matter are data frames, `data: `
//! followed by a JSON payload. The end of the stream is announced by a data
//! frame whose payload is the sentinel `[DONE]`, which is not JSON and is
//! dropped here; every other line (keep-alives, comments, blank lines) is
//! ignored.

use vstd::prelude::*;

verus! {

/// The line feed, which ends a line.
pub const LINE_FEED: u8 = 10;

/// The carriage return, which may precede the line feed.
pub const CARRIAGE_RETURN: u8 = 13;

/// The marker that opens a data frame: the bytes of `data: `.
pub open spec fn data_marker() -> Seq<u8> {
    seq![100u8, 97u8, 116u8, 97u8, 58u8, 32u8]
}

/// The payload that announces the end of the stream: the bytes of `[DONE]`.
pub open spec fn end_sentinel() -> Seq<u8> {
    seq![91u8, 68u8, 79u8, 78u8, 69u8, 93u8]
}

/// Index of the first line feed in `bytes`, or the length of `bytes` if it
/// holds none.
pub open spec fn first_break(bytes: Seq<u8>) -> int
    decreases bytes.len(),
{
    if bytes.len() == 0 || bytes[0] == LINE_FEED {
        0
    } else {
        1 + first_break(bytes.drop_first())
    }
}

/// A line without the carriage return that preceded its line feed, if one did.
pub open spec fn without_return(line: Seq<u8>) -> Seq<u8> {
    if line.len() > 0 && line.last() == CARRIAGE_RETURN {
        line.drop_last()
    } else {
        line
    }
}

/// The lines of `bytes`. A line ends at a line feed, or at a carriage
/// return directly followed by one; the terminator is not part of the line.
/// The last line need not be terminated, and is then kept as it is.
pub open spec fn lines(bytes: Seq<u8>) -> Seq<Seq<u8>>
    decreases bytes.len(),
{
    if bytes.len() == 0 {
        Seq::empty()
    } else {
        let cut = first_break(bytes);
        if cut < bytes.len() {
            proof {
                lemma_first_break(bytes);
            }
            seq![without_return(bytes.take(cut))] + lines(bytes.skip(cut + 1))
        } else {
            seq![bytes]
        }
    }
}

/// The payload of `line`, if `line` is a data frame other than the end sentinel.
pub open spec fn payload(line: Seq<u8>) -> Option<Seq<u8>> {
    if line.len() >= 6 && line.take(6) == data_marker() && line.skip(6) != end_sentinel() {
        Some(line.skip(6))
    } else {
        None
    }
}

/// The payloads of the data frames among `lines`, in order.
pub open spec fn payloads(lines: Seq<Seq<u8>>) -> Seq<Seq<u8>>
    decreases lines.len(),
{
    if lines.len() == 0 {
        Seq::empty()
    } else {
        match payload(lines.last()) {
            Some(data) => payloads(lines.drop_last()).push(data),
            None => payloads(lines.drop_last()),
        }
    }
}

/// The payloads of the data frames in `bytes`, in order.
pub open spec fn frames(bytes: Seq<u8>) -> Seq<Seq<u8>> {
    payloads(lines(bytes))
}

/// `first_break` is within bounds, points at a line feed if it points at
/// anything, and no line feed comes before it.
pub proof fn lemma_first_break(bytes: Seq<u8>)
    ensures
        0 <= first_break(bytes) <= bytes.len(),
        first_break(bytes) < bytes.len() ==> bytes[first_break(bytes)] == LINE_FEED,
        forall|k: int| 0 <= k < first_break(bytes) ==> #[trigger] bytes[k] != LINE_FEED,
    decreases bytes.len(),
{
    if bytes.len() == 0 || bytes[0] == LINE_FEED {
    } else {
        let rest = bytes.drop_first();
        lemma_first_break(rest);
        assert forall|k: int| 0 <= k < first_break(bytes) implies #[trigger] bytes[k]
            != LINE_FEED by {
            if k > 0 {
                assert(bytes[k] == rest[k - 1]);
            }
        }
    }
}

/// The first line feed, or the end, reached without meeting a line feed, is
/// the first break.
pub proof fn lemma_first_break_is(bytes: Seq<u8>, at: int)
    requires
        0 <= at <= bytes.len(),
        forall|k: int| 0 <= k < at ==> #[trigger] bytes[k] != LINE_FEED,
        at < bytes.len() ==> bytes[at] == LINE_FEED,
    ensures
        first_break(bytes) == at,
    decreases bytes.len(),
{
    if bytes.len() == 0 || at == 0 {
    } else {
        assert(bytes[0] != LINE_FEED);
        let rest = bytes.drop_first();
        assert forall|k: int| 0 <= k < at - 1 implies #[trigger] rest[k] != LINE_FEED by {
            assert(rest[k] == bytes[k + 1]);
        }
        lemma_first_break_is(rest, at - 1);
    }
}

/// The payloads of two runs of lines joined are the payloads of each, joined.
pub proof fn lemma_payloads_concat(a: Seq<Seq<u8>>, b: Seq<Seq<u8>>)
    ensures
        payloads(a + b) == payloads(a) + payloads(b),
    decreases b.len(),
{
    if b.len() == 0 {
        assert(a + b =~= a);
        assert(payloads(a) + payloads(b) =~= payloads(a));
    } else {
        assert((a + b).drop_last() =~= a + b.drop_last());
        assert((a + b).last() == b.last());
        lemma_payloads_concat(a, b.drop_last());
        assert(payloads(a + b) =~= payloads(a) + payloads(b));
    }
}

/// The payloads of a single line.
pub proof fn lemma_payloads_single(line: Seq<u8>)
    ensures
        payloads(seq![line]) == match payload(line) {
            Some(data) => seq![data],
            None => Seq::<Seq<u8>>::empty(),
        },
{
    assert(seq![line].drop_last() =~= Seq::<Seq<u8>>::empty());
    assert(seq![line].last() == line);
    assert(payloads(Seq::<Seq<u8>>::empty()) =~= Seq::<Seq<u8>>::empty());
    match payload(line) {
        Some(data) => {
            assert(payloads(seq![line]) =~= seq![data]);
        },
        None => {},
    }
}

/// Copies the bytes of `bytes` from `from` up to `to`.
fn copy_range(bytes: &[u8], from: usize, to: usize) -> (copy: Vec<u8>)
    requires
        from <= to <= bytes.len(),
    ensures
        copy@ == bytes@.subrange(from as int, to as int),
{
    let mut copy: Vec<u8> = Vec::new();
    let mut i: usize = from;
    while i < to
        invariant
            from <= i <= to <= bytes.len(),
            copy@ == bytes@.subrange(from as int, i as int),
        decreases to - i,
    {
        copy.push(bytes[i]);
        assert(copy@ =~= bytes@.subrange(from as int, i as int + 1));
        i += 1;
    }
    copy
}

/// The payload of the line that `bytes` holds from `from` up to `to`.
fn payload_of(bytes: &[u8], from: usize, to: usize) -> (data: Option<Vec<u8>>)
    requires
        from <= to <= bytes.len(),
    ensures
        data.deep_view() == payload(bytes@.subrange(from as int, to as int)),
{
    let ghost line = bytes@.subrange(from as int, to as int);
    if to - from < 6 {
        return None;
    }
    let marked = bytes[from] == 100 && bytes[from + 1] == 97 && bytes[from + 2] == 116 && bytes[from
        + 3] == 97 && bytes[from + 4] == 58 && bytes[from + 5] == 32;
    if !marked {
        assert(line.take(6) != data_marker()) by {
            if line.take(6) == data_marker() {
                assert(line.take(6)[0] == 100 && line.take(6)[1] == 97 && line.take(6)[2] == 116
                    && line.take(6)[3] == 97 && line.take(6)[4] == 58 && line.take(6)[5] == 32);
            }
        }
        return None;
    }
    assert(line.take(6) =~= data_marker());
    let start = from + 6;
    assert(line.skip(6) =~= bytes@.subrange(start as int, to as int));
    let ended = to - start == 6 && bytes[start] == 91 && bytes[start + 1] == 68 && bytes[start + 2]
        == 79 && bytes[start + 3] == 78 && bytes[start + 4] == 69 && bytes[start + 5] == 93;
    if ended {
        assert(line.skip(6) =~= end_sentinel());
        return None;
    }
    assert(line.skip(6) != end_sentinel()) by {
        if line.skip(6) == end_sentinel() {
            assert(line.skip(6).len() == 6);
            assert(line.skip(6)[0] == 91 && line.skip(6)[1] == 68 && line.skip(6)[2] == 79
                && line.skip(6)[3] == 78 && line.skip(6)[4] == 69 && line.skip(6)[5] == 93);
        }
    }
    let data = copy_range(bytes, start, to);
    Some(data)
}

/// Extracts the payloads of the data frames from a piece of a streamed
/// reply, in order. Lines that are not data frames are skipped, and so is
/// the end sentinel; nothing is made of the payloads themselves.
pub fn data_frames(bytes: &[u8]) -> (found: Vec<Vec<u8>>)
    ensures
        found.deep_view() == frames(bytes@),
{
    let mut found: Vec<Vec<u8>> = Vec::new();
    let mut start: usize = 0;
    assert(found.deep_view() =~= Seq::<Seq<u8>>::empty());
    assert(bytes@.skip(0) =~= bytes@);
    while start < bytes.len()
        invariant
            start <= bytes.len(),
            frames(bytes@) == found.deep_view() + payloads(lines(bytes@.skip(start as int))),
        decreases bytes.len() - start,
    {
        let ghost rest = bytes@.skip(start as int);
        let ghost so_far = found.deep_view();
        let mut stop: usize = start;
        while stop < bytes.len() && bytes[stop] != LINE_FEED
            invariant
                start <= stop <= bytes.len(),
                forall|k: int| start <= k < stop ==> #[trigger] bytes@[k] != LINE_FEED,
            decreases bytes.len() - stop,
        {
            stop += 1;
        }
        proof {
            assert forall|k: int| 0 <= k < stop - start implies #[trigger] rest[k]
                != LINE_FEED by {
                assert(rest[k] == bytes@[start + k]);
            }
            lemma_first_break_is(rest, stop - start);
        }
        let terminated = stop < bytes.len();
        let mut end: usize = stop;
        if terminated && end > start && bytes[end - 1] == CARRIAGE_RETURN {
            end = end - 1;
        }
        let ghost line = if terminated {
            without_return(rest.take(stop - start))
        } else {
            rest
        };
        assert(line =~= bytes@.subrange(start as int, end as int));
        let data = payload_of(bytes, start, end);
        let next = if terminated {
            stop + 1
        } else {
            stop
        };
        proof {
            let tail = bytes@.skip(next as int);
            if terminated {
                assert(rest.skip(stop - start + 1) =~= tail);
                assert(lines(rest) == seq![line] + lines(tail));
            } else {
                assert(tail.len() == 0);
                assert(lines(rest) =~= seq![line] + lines(tail));
            }
            lemma_payloads_concat(seq![line], lines(tail));
            lemma_payloads_single(line);
        }
        match data {
            Some(data) => {
                found.push(data);
                assert(found.deep_view() =~= so_far.push(payload(line).unwrap()));
                assert(frames(bytes@) =~= found.deep_view() + payloads(
                    lines(bytes@.skip(next as int)),
                ));
            },
            None => {
                assert(frames(bytes@) =~= found.deep_view() + payloads(
                    lines(bytes@.skip(next as int)),
                ));
            },
        }
        start = next;
    }
    assert(lines(bytes@.skip(start as int)) =~= Seq::<Seq<u8>>::empty());
    assert(frames(bytes@) =~= found.deep_view());
    found
}

} // verus!
