//! Properties of the response that hold for every combination of outcomes.
use vstd::prelude::*;

use crate::aggregate::{chunk_count, expected_records, normalized, record_chunks, txt_spec, Answers};
use crate::record_type::RecordType;
use crate::text::{error_prefix, error_spec, lossy_text};

verus! {

/// No outcome is lost: a successful query reports exactly its records (an
/// empty sequence only where the resolver itself found none), and a failed
/// one reports a single entry that starts with `Error: ` and carries the
/// resolver's message.
pub proof fn lemma_every_outcome_is_reported(answers: Answers, t: RecordType)
    ensures
        normalized(answers, t) is Ok ==> expected_records(answers, t) == normalized(
            answers,
            t,
        )->Ok_0,
        normalized(answers, t) is Err ==> {
            let records = expected_records(answers, t);
            &&& records.len() == 1
            &&& records[0] == error_spec(normalized(answers, t)->Err_0)
            &&& error_prefix().is_prefix_of(records[0])
        },
{
    if normalized(answers, t) is Err {
        let m = normalized(answers, t)->Err_0;
        assert(error_spec(m).subrange(0, error_prefix().len() as int) =~= error_prefix());
    }
}

/// Decoding TXT data drops no chunk: the result holds exactly one string
/// per data chunk over all records.
pub proof fn lemma_txt_keeps_every_chunk(records: Seq<Vec<Vec<u8>>>)
    ensures
        txt_spec(records).len() == chunk_count(records),
    decreases records.len(),
{
    if records.len() > 0 {
        lemma_txt_keeps_every_chunk(records.drop_last());
    }
}

/// Decoding TXT data keeps each chunk in place: chunk `j` of record `i`
/// stands, decoded, right after the chunks of the records before it.
pub proof fn lemma_txt_chunk_position(records: Seq<Vec<Vec<u8>>>, i: int, j: int)
    requires
        0 <= i < records.len(),
        0 <= j < records[i]@.len(),
    ensures
        chunk_count(records.take(i)) + j < txt_spec(records).len(),
        txt_spec(records)[chunk_count(records.take(i)) + j] == lossy_text(records[i]@[j]@),
{
    lemma_txt_keeps_every_chunk(records);
    lemma_txt_keeps_every_chunk(records.take(i));
    let prefix = records.take(i + 1);
    lemma_txt_keeps_every_chunk(prefix);
    assert(prefix.drop_last() =~= records.take(i));
    assert(prefix.last() == records[i]);
    assert(txt_spec(prefix) == txt_spec(records.take(i)) + record_chunks(records[i]@));
    let k = chunk_count(records.take(i)) + j;
    assert(txt_spec(prefix)[k] == record_chunks(records[i]@)[j]);
    lemma_txt_prefix(records, i + 1);
    assert(txt_spec(records)[k] == txt_spec(prefix)[k]);
}

/// The decoded chunks of the first `n` records are a prefix of those of all.
proof fn lemma_txt_prefix(records: Seq<Vec<Vec<u8>>>, n: int)
    requires
        0 <= n <= records.len(),
    ensures
        txt_spec(records.take(n)).is_prefix_of(txt_spec(records)),
    decreases records.len(),
{
    if n < records.len() {
        assert(records.drop_last().take(n) =~= records.take(n));
        lemma_txt_prefix(records.drop_last(), n);
    } else {
        assert(records.take(n) =~= records);
    }
}

} // verus!
