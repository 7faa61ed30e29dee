//! Server-sent-event framing, on bytes: the server wraps each stream item's
//! JSON payload as a `data: <payload>` line followed by a blank line, and
//! the client scans the response body line by line, taking the payload out
//! of every `data: ` line and ignoring the rest. Closure of the body is the
//! stream's terminator; no sentinel is framed.

use vstd::prelude::*;

verus! {

/// The ASCII bytes of `"data: "`, the prefix of an SSE data line.
pub open spec fn spec_sse_prefix() -> Seq<u8> {
    seq![100u8, 97u8, 116u8, 97u8, 58u8, 32u8]
}

/// One frame of an SSE body: the data prefix, the payload, the line's
/// newline, and the blank separator line.
pub open spec fn spec_sse_frame(payload: Seq<u8>) -> Seq<u8> {
    spec_sse_prefix() + payload + seq![10u8, 10u8]
}

/// The ASCII bytes of `"data: "`.
fn sse_prefix() -> (r: Vec<u8>)
    ensures
        r@ == spec_sse_prefix(),
{
    let mut v: Vec<u8> = Vec::new();
    v.push(100);
    v.push(97);
    v.push(116);
    v.push(97);
    v.push(58);
    v.push(32);
    proof {
        assert(v@ =~= spec_sse_prefix());
    }
    v
}

/// Frames one stream item's payload for the SSE body.
pub fn sse_frame(payload: &Vec<u8>) -> (r: Vec<u8>)
    ensures
        r@ == spec_sse_frame(payload@),
{
    let mut r = sse_prefix();
    let mut i: usize = 0;
    while i < payload.len()
        invariant
            0 <= i <= payload@.len(),
            r@ == spec_sse_prefix() + payload@.take(i as int),
        decreases payload@.len() - i,
    {
        r.push(payload[i]);
        proof {
            assert(r@ =~= spec_sse_prefix() + payload@.take(i + 1));
        }
        i = i + 1;
    }
    r.push(10);
    r.push(10);
    proof {
        assert(payload@.take(payload@.len() as int) =~= payload@);
        assert(r@ =~= spec_sse_frame(payload@));
    }
    r
}

/// Takes the first line — through its newline — off the front of the
/// buffer. Nothing is taken from a buffer without a newline: its bytes wait
/// for the rest of their line to arrive.
pub fn take_line(buffer: &mut Vec<u8>) -> (r: Option<Vec<u8>>)
    ensures
        match r {
            Some(line) => {
                &&& line@.len() >= 1
                &&& line@ + final(buffer)@ == old(buffer)@
                &&& line@[line@.len() - 1] == 10u8
                &&& forall|j: int| 0 <= j < line@.len() - 1 ==> line@[j] != 10u8
            },
            None => {
                &&& final(buffer)@ == old(buffer)@
                &&& forall|j: int| 0 <= j < old(buffer)@.len() ==> old(buffer)@[j] != 10u8
            },
        },
{
    let mut i: usize = 0;
    while i < buffer.len() && buffer[i] != 10
        invariant
            buffer@ == old(buffer)@,
            0 <= i <= buffer@.len(),
            forall|j: int| 0 <= j < i ==> buffer@[j] != 10u8,
        decreases buffer@.len() - i,
    {
        i = i + 1;
    }
    if i == buffer.len() {
        return None;
    }
    proof {
        assert(buffer@.len() <= usize::MAX);
    }
    let mut line: Vec<u8> = Vec::new();
    let mut j: usize = 0;
    while j <= i
        invariant
            buffer@ == old(buffer)@,
            0 <= j <= i + 1,
            i < buffer@.len(),
            buffer@.len() <= usize::MAX,
            line@ == buffer@.take(j as int),
        decreases i + 1 - j,
    {
        line.push(buffer[j]);
        proof {
            assert(line@ =~= buffer@.take(j + 1));
        }
        j = j + 1;
    }
    let mut rest: Vec<u8> = Vec::new();
    let mut k: usize = i + 1;
    while k < buffer.len()
        invariant
            buffer@ == old(buffer)@,
            i + 1 <= k <= buffer@.len(),
            buffer@.len() <= usize::MAX,
            rest@ == buffer@.subrange(i + 1, k as int),
        decreases buffer@.len() - k,
    {
        rest.push(buffer[k]);
        proof {
            assert(rest@ =~= buffer@.subrange(i + 1, k + 1));
        }
        k = k + 1;
    }
    proof {
        assert(line@ + rest@ =~= old(buffer)@);
        assert(line@[line@.len() - 1] == old(buffer)@[i as int]);
    }
    *buffer = rest;
    Some(line)
}

/// The payload of an SSE data line: the bytes between the `data: ` prefix
/// and the line's newline; no payload for any other line.
pub open spec fn spec_sse_line_data(line: Seq<u8>) -> Option<Seq<u8>> {
    if line.len() >= 7 && line.take(6) == spec_sse_prefix() && line[line.len() - 1] == 10u8 {
        Some(line.subrange(6, line.len() - 1))
    } else {
        None
    }
}

/// Reads one scanned line: the payload of a `data: ` line, or nothing for
/// any other line, which the client ignores.
pub fn sse_line_data(line: &Vec<u8>) -> (r: Option<Vec<u8>>)
    ensures
        match r {
            Some(data) => spec_sse_line_data(line@) == Some(data@),
            None => spec_sse_line_data(line@) == None::<Seq<u8>>,
        },
{
    if line.len() < 7 {
        return None;
    }
    if line[line.len() - 1] != 10 {
        return None;
    }
    let prefix = sse_prefix();
    let mut i: usize = 0;
    while i < 6
        invariant
            line@.len() >= 7,
            prefix@ == spec_sse_prefix(),
            0 <= i <= 6,
            forall|j: int| 0 <= j < i ==> line@[j] == spec_sse_prefix()[j],
        decreases 6 - i,
    {
        if line[i] != prefix[i] {
            proof {
                assert(line@.take(6)[i as int] != spec_sse_prefix()[i as int]);
            }
            return None;
        }
        i = i + 1;
    }
    proof {
        assert(line@.take(6) =~= spec_sse_prefix());
    }
    let mut data: Vec<u8> = Vec::new();
    let mut k: usize = 6;
    while k < line.len() - 1
        invariant
            line@.len() >= 7,
            6 <= k <= line@.len() - 1,
            data@ == line@.subrange(6, k as int),
        decreases line@.len() - k,
    {
        data.push(line[k]);
        proof {
            assert(data@ =~= line@.subrange(6, k + 1));
        }
        k = k + 1;
    }
    Some(data)
}

/// Law (SSE round trip): scanning what the server framed recovers the
/// payload intact — the first line of a frame is a data line yielding
/// exactly the payload, and what remains is the blank separator, which
/// yields nothing.
pub proof fn lemma_sse_round_trip(payload: Seq<u8>, line: Seq<u8>, rest: Seq<u8>)
    requires
        forall|j: int| 0 <= j < payload.len() ==> payload[j] != 10u8,
        line + rest == spec_sse_frame(payload),
        line.len() >= 1,
        line[line.len() - 1] == 10u8,
        forall|j: int| 0 <= j < line.len() - 1 ==> line[j] != 10u8,
    ensures
        line =~= spec_sse_prefix() + payload + seq![10u8],
        rest =~= seq![10u8],
        spec_sse_line_data(line) == Some(payload),
{
    let frame = spec_sse_frame(payload);
    let n = payload.len() as int;
    assert(frame.len() == n + 8);
    assert(forall|j: int| 0 <= j < line.len() ==> line[j] == frame[j]);
    // no byte before the line's own newline is a newline, so the line ends
    // exactly where the frame's first newline sits: right after the payload
    assert(forall|j: int| 0 <= j < 6 ==> frame[j] == spec_sse_prefix()[j]);
    assert(spec_sse_prefix()[0] != 10u8 && spec_sse_prefix()[1] != 10u8 && spec_sse_prefix()[2]
        != 10u8 && spec_sse_prefix()[3] != 10u8 && spec_sse_prefix()[4] != 10u8
        && spec_sse_prefix()[5] != 10u8);
    assert(forall|j: int| 6 <= j < n + 6 ==> frame[j] == payload[j - 6]);
    assert(frame[n + 6] == 10u8);
    assert(line.len() <= frame.len());
    if line.len() < n + 7 {
        assert(frame[line.len() - 1] != 10u8);
        assert(false);
    }
    if line.len() > n + 7 {
        assert(line[n + 6] != 10u8);
        assert(frame[n + 6] == 10u8);
        assert(false);
    }
    assert(line.len() == n + 7);
    assert(line =~= spec_sse_prefix() + payload + seq![10u8]);
    assert(rest.len() == 1);
    assert(rest[0] == frame[n + 7]);
    assert(rest =~= seq![10u8]);
    assert(line.take(6) =~= spec_sse_prefix());
    assert(line.subrange(6, line.len() - 1) =~= payload);
}

} // verus!
