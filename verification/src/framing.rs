//! Splitting the bytes that arrive from the client into complete JSON values.
//!
//! The client writes JSON values one after another, possibly split across
//! reads. The proxy passes on each value once it is complete and keeps the
//! rest for later.

use vstd::prelude::*;
use vstd::slice::slice_subrange;

verus! {

/// Where the first JSON value in `bytes` ends (leading whitespace included),
/// as serde_json's stream deserializer reports it; `None` when `bytes` holds
/// no complete, well-formed value at its start.
pub uninterp spec fn json_value_end(bytes: Seq<u8>) -> Option<usize>;

/// Reads the first JSON value of `bytes` with a `serde_json` stream
/// deserializer and returns its end offset (`StreamDeserializer::byte_offset`).
///
/// Trusted: the offset is `json_value_end` of the bytes, and a value, being at
/// least one byte long, ends after the start and within the bytes.
#[verifier::external_body]
fn first_value_end(bytes: &[u8]) -> (r: Option<usize>)
    ensures
        r == json_value_end(bytes@),
        r matches Some(e) ==> 0 < e <= bytes@.len(),
{
    let mut stream = serde_json::Deserializer::from_slice(bytes).into_iter::<serde_json::Value>();
    match stream.next() {
        Some(Ok(_)) => Some(stream.byte_offset()),
        _ => None,
    }
}

/// The end offsets of the complete JSON values in `bytes` from `start` on:
/// each value is read where the one before it ended, until what is left is
/// empty or holds no complete value.
pub open spec fn value_ends_from(bytes: Seq<u8>, start: int) -> Seq<int>
    decreases bytes.len() - start,
{
    if start < 0 || start >= bytes.len() {
        Seq::empty()
    } else {
        match json_value_end(bytes.subrange(start, bytes.len() as int)) {
            Some(e) => if 0 < e && start + e <= bytes.len() {
                seq![start + e] + value_ends_from(bytes, start + e)
            } else {
                Seq::empty()
            },
            None => Seq::empty(),
        }
    }
}

/// Where the `k`-th value of a run of values begins: at 0 for the first,
/// else where the one before it ended.
pub open spec fn previous_end(ends: Seq<usize>, k: int) -> int {
    if k <= 0 { 0 } else { ends[k - 1] as int }
}

/// Where the last value of a run ends (0 for none).
pub open spec fn last_end(ends: Seq<usize>) -> int {
    if ends.len() == 0 { 0 } else { ends.last() as int }
}

/// The end offsets of the complete JSON values at the front of `buffer`, in
/// order. The bytes after the last offset (all of them, if there is none) are
/// not yet a complete value.
pub fn value_ends(buffer: &[u8]) -> (ends: Vec<usize>)
    ensures
        ends@.map_values(|e: usize| e as int) == value_ends_from(buffer@, 0),
        forall|i: int, j: int| 0 <= i < j < ends@.len() ==> ends@[i] < ends@[j],
        forall|i: int| 0 <= i < ends@.len() ==> 0 < #[trigger] ends@[i] <= buffer@.len(),
        // each value starts where the one before it ended (the first at 0)
        forall|k: int| 0 <= k < ends@.len() ==> json_value_end(
            buffer@.subrange(previous_end(ends@, k), buffer@.len() as int))
                == Some((#[trigger] ends@[k] - previous_end(ends@, k)) as usize),
        // and after the last one no complete value is left
        last_end(ends@) == buffer@.len()
            || json_value_end(buffer@.subrange(last_end(ends@) as int, buffer@.len() as int)) is None,
{
    let mut ends: Vec<usize> = Vec::new();
    let mut cursor: usize = 0;
    while cursor < buffer.len()
        invariant
            cursor <= buffer@.len(),
            value_ends_from(buffer@, 0) == ends@.map_values(|e: usize| e as int) + value_ends_from(buffer@, cursor as int),
            forall|i: int, j: int| 0 <= i < j < ends@.len() ==> ends@[i] < ends@[j],
            forall|i: int| 0 <= i < ends@.len() ==> 0 < #[trigger] ends@[i] <= cursor,
            ends@.len() > 0 ==> ends@.last() == cursor,
            last_end(ends@) == cursor,
            forall|k: int| 0 <= k < ends@.len() ==> json_value_end(
                buffer@.subrange(previous_end(ends@, k), buffer@.len() as int))
                    == Some((#[trigger] ends@[k] - previous_end(ends@, k)) as usize),
        decreases buffer.len() - cursor,
    {
        let rest = slice_subrange(buffer, cursor, buffer.len());
        match first_value_end(rest) {
            Some(e) => {
                let next = cursor + e;
                let ghost before = ends@;
                ends.push(next);
                assert(previous_end(ends@, before.len() as int) == cursor);
                assert forall|k: int| 0 <= k < before.len() implies previous_end(ends@, k) == previous_end(before, k)
                    && ends@[k] == before[k] by {}
                assert(ends@.map_values(|x: usize| x as int) =~= before.map_values(|x: usize| x as int) + seq![next as int]);
                assert(value_ends_from(buffer@, cursor as int) == seq![next as int] + value_ends_from(buffer@, next as int));
                cursor = next;
            },
            None => {
                assert(value_ends_from(buffer@, cursor as int) =~= Seq::<int>::empty());
                assert(ends@.map_values(|x: usize| x as int) + Seq::<int>::empty() =~= ends@.map_values(|x: usize| x as int));
                return ends;
            },
        }
    }
    assert(ends@.map_values(|x: usize| x as int) + Seq::<int>::empty() =~= ends@.map_values(|x: usize| x as int));
    ends
}

/// Where the `k`-th value of a run that began at `start` begins.
pub open spec fn value_start(ends: Seq<int>, k: int, start: int) -> int {
    if k <= 0 { start } else { ends[k - 1] }
}

/// The values found from `start` follow one another: each begins where the
/// one before it ended, and after the last one what is left holds no
/// complete value (its reported end is missing or does not lie within it).
pub proof fn law_value_ends_chain(bytes: Seq<u8>, start: int)
    requires
        0 <= start <= bytes.len(),
    ensures
        ({
            let ends = value_ends_from(bytes, start);
            let last = value_start(ends, ends.len() as int, start);
            &&& forall|k: int| 0 <= k < ends.len() ==> value_start(ends, k, start) < #[trigger] ends[k] <= bytes.len()
                && json_value_end(bytes.subrange(value_start(ends, k, start), bytes.len() as int))
                    == Some((ends[k] - value_start(ends, k, start)) as usize)
            &&& last == bytes.len() || !(json_value_end(bytes.subrange(last, bytes.len() as int)) matches Some(e)
                && 0 < e <= bytes.len() - last)
        }),
    decreases bytes.len() - start,
{
    let ends = value_ends_from(bytes, start);
    if start < bytes.len() {
        if let Some(e) = json_value_end(bytes.subrange(start, bytes.len() as int)) {
            if 0 < e && start + e <= bytes.len() {
                let next = start + e;
                law_value_ends_chain(bytes, next);
                let rest = value_ends_from(bytes, next);
                assert(ends == seq![next] + rest);
                assert forall|k: int| 0 < k <= ends.len() implies value_start(ends, k, start)
                    == value_start(rest, k - 1, next) by {}
                assert forall|k: int| 0 < k < ends.len() implies #[trigger] ends[k] == rest[k - 1] by {}
            }
        }
    }
}

} // verus!
