//! The output side: framing of serialized records for a line-delimited
//! byte stream, and the network sink worker's behaviour under write
//! failures — consume, write once, reconnect on failure, never retry the
//! failed record — with its counters.
use crate::text::push_char;
use vstd::prelude::*;

verus! {

/// Frames one serialized record for the wire: the record's text with a
/// newline terminator.
pub fn frame_line(payload: &str) -> (r: String)
    ensures
        r@ == payload@.push('\n'),
{
    let mut line = payload.to_owned();
    push_char(&mut line, '\n');
    line
}

/// The positions, in order, of the records a write script delivers among
/// the first `k`: exactly those whose write succeeds.
pub open spec fn spec_delivered(writes: Seq<bool>, k: int) -> Seq<int>
    decreases k,
{
    if k <= 0 {
        Seq::empty()
    } else if k - 1 < writes.len() && writes[k - 1] {
        spec_delivered(writes, k - 1).push(k - 1)
    } else {
        spec_delivered(writes, k - 1)
    }
}

/// Law: under any pattern of write failures, a record is delivered exactly
/// when its own write succeeds — a failed record is never redelivered, no
/// record is delivered twice, and records that follow a failure still get
/// through. Deliveries keep the consumption order.
pub proof fn lemma_at_most_once_delivery(writes: Seq<bool>, k: int)
    requires
        0 <= k <= writes.len(),
    ensures
        forall|j: int| #[trigger]
            spec_delivered(writes, k).contains(j) <==> (0 <= j < k && writes[j]),
        forall|a: int, b: int|
            0 <= a < b < spec_delivered(writes, k).len() ==> #[trigger] spec_delivered(
                writes,
                k,
            )[a] < #[trigger] spec_delivered(writes, k)[b],
    decreases k,
{
    if k > 0 {
        lemma_at_most_once_delivery(writes, k - 1);
        let prev = spec_delivered(writes, k - 1);
        let cur = spec_delivered(writes, k);
        assert forall|j: int| #[trigger] cur.contains(j) implies (0 <= j < k && writes[j]) by {
            if writes[k - 1] {
                if j != k - 1 {
                    let a = choose|a: int| 0 <= a < cur.len() && cur[a] == j;
                    assert(prev[a] == j);
                    assert(prev.contains(j));
                }
            }
        }
        assert forall|j: int| (0 <= j < k && writes[j]) implies #[trigger] cur.contains(j) by {
            if j < k - 1 {
                assert(prev.contains(j));
                let a = choose|a: int| 0 <= a < prev.len() && prev[a] == j;
                assert(cur[a] == j);
            } else {
                assert(cur[cur.len() - 1] == j);
            }
        }
        assert forall|a: int, b: int| 0 <= a < b < cur.len() implies #[trigger] cur[a]
            < #[trigger] cur[b] by {
            if writes[k - 1] && b == cur.len() - 1 {
                assert(prev.contains(prev[a]));
            }
        }
    }
}

/// What a network sink worker did over one run: every record consumed is
/// counted as sent; each failed write is followed by one reconnect; the
/// framed lines that reached the wire, in order, with the position each one
/// had in the input.
pub struct SinkReport {
    pub sent: u64,
    pub reconnects: u64,
    pub delivered: Vec<usize>,
    pub lines: Vec<String>,
}

/// The positions a report's deliveries claim.
pub open spec fn delivered_positions(d: Seq<usize>) -> Seq<int> {
    d.map_values(|x: usize| x as int)
}

/// Runs one network sink worker over pre-serialized records against a
/// scripted transport: `writes[i]` says whether the single write attempt
/// for record `i` succeeds. Every record is consumed and counted; a failed
/// write costs one reconnect and the record is not retried; each delivered
/// record reaches the wire as one newline-terminated line, in order.
pub fn run_network_sink(records: &Vec<String>, writes: &Vec<bool>) -> (r: SinkReport)
    requires
        records@.len() == writes@.len(),
        records@.len() <= u64::MAX,
    ensures
        r.sent == records@.len(),
        delivered_positions(r.delivered@) == spec_delivered(writes@, writes@.len() as int),
        r.reconnects as int == writes@.len() - spec_delivered(
            writes@,
            writes@.len() as int,
        ).len(),
        r.lines@.len() == r.delivered@.len(),
        forall|a: int|
            0 <= a < r.lines@.len() ==> #[trigger] r.lines@[a]@ == records@[r.delivered@[a] as int]@.push(
                '\n',
            ),
{
    let n = records.len();
    let mut delivered: Vec<usize> = Vec::new();
    let mut lines: Vec<String> = Vec::new();
    let mut reconnects: u64 = 0;
    let mut i: usize = 0;
    while i < n
        invariant
            n == records@.len(),
            n == writes@.len(),
            n <= u64::MAX,
            i <= n,
            delivered_positions(delivered@) == spec_delivered(writes@, i as int),
            reconnects as int == i - spec_delivered(writes@, i as int).len(),
            lines@.len() == delivered@.len(),
            forall|a: int|
                0 <= a < lines@.len() ==> #[trigger] lines@[a]@ == records@[delivered@[a] as int]@.push(
                    '\n',
                ),
        decreases n - i,
    {
        let line = frame_line(records[i].as_str());
        if writes[i] {
            proof {
                assert(delivered_positions(delivered@.push(i)) =~= delivered_positions(
                    delivered@,
                ).push(i as int));
            }
            delivered.push(i);
            lines.push(line);
        } else {
            reconnects = reconnects + 1;
            proof {
                lemma_delivered_len(writes@, i + 1);
            }
        }
        i = i + 1;
    }
    SinkReport { sent: n as u64, reconnects, delivered, lines }
}

/// A write script delivers at most as many records as it covers.
proof fn lemma_delivered_len(writes: Seq<bool>, k: int)
    ensures
        spec_delivered(writes, k).len() <= (if k < 0 {
            0
        } else {
            k
        }),
    decreases k,
{
    if k > 0 {
        lemma_delivered_len(writes, k - 1);
    }
}

} // verus!
