//! Normalization of the six query outcomes into one uniform response.
use vstd::prelude::*;

use crate::record_type::{canonical_order, RecordType, RECORD_TYPE_COUNT};
use crate::text::{
    chunk_text, error_marker, error_prefix, error_spec, ipv4_spec, ipv4_text, lossy_text, mx_spec,
    mx_text, MxData,
};

verus! {

/// The outcome of each of the six queries for one domain, as plain values.
/// Each field is the slot of one record type: a failed query holds the
/// resolver's error message.
pub struct Answers {
    /// IPv4 addresses, as four octets each.
    pub a: Result<Vec<[u8; 4]>, String>,
    /// IPv6 addresses, in their canonical text form.
    pub aaaa: Result<Vec<String>, String>,
    /// Mail-exchange records.
    pub mx: Result<Vec<MxData>, String>,
    /// Name-server host names.
    pub ns: Result<Vec<String>, String>,
    /// TXT records, each a sequence of raw data chunks.
    pub txt: Result<Vec<Vec<Vec<u8>>>, String>,
    /// CNAME records, in their text form.
    pub cname: Result<Vec<String>, String>,
}

/// One entry of a response: a record type and what was found for it.
pub struct DnsResult {
    pub record_type: RecordType,
    pub records: Vec<String>,
}

/// The characters of each string.
pub open spec fn texts(v: Seq<String>) -> Seq<Seq<char>> {
    v.map_values(|s: String| s@)
}

/// The decoded chunks of one TXT record.
pub open spec fn record_chunks(record: Seq<Vec<u8>>) -> Seq<Seq<char>> {
    record.map_values(|c: Vec<u8>| lossy_text(c@))
}

/// The decoded chunks of all TXT records, one entry per chunk, in order.
pub open spec fn txt_spec(records: Seq<Vec<Vec<u8>>>) -> Seq<Seq<char>>
    decreases records.len(),
{
    if records.len() == 0 {
        seq![]
    } else {
        txt_spec(records.drop_last()) + record_chunks(records.last()@)
    }
}

/// The number of data chunks over all TXT records.
pub open spec fn chunk_count(records: Seq<Vec<Vec<u8>>>) -> nat
    decreases records.len(),
{
    if records.len() == 0 {
        0
    } else {
        chunk_count(records.drop_last()) + records.last()@.len()
    }
}

/// A query outcome whose records have been mapped to text by `f`.
pub open spec fn outcome_of<T>(o: Result<Vec<T>, String>, f: spec_fn(T) -> Seq<char>) -> Result<
    Seq<Seq<char>>,
    Seq<char>,
> {
    match o {
        Ok(v) => Ok(v@.map_values(f)),
        Err(e) => Err(e@),
    }
}

/// A query outcome of texts, seen as characters.
pub open spec fn outcome_texts(o: Result<Vec<String>, String>) -> Result<Seq<Seq<char>>, Seq<char>> {
    outcome_of(o, |s: String| s@)
}

/// The normalized outcome of the query for record type `t`.
pub open spec fn normalized(answers: Answers, t: RecordType) -> Result<Seq<Seq<char>>, Seq<char>> {
    match t {
        RecordType::A => outcome_of(answers.a, |o: [u8; 4]| ipv4_spec(o@)),
        RecordType::Aaaa => outcome_texts(answers.aaaa),
        RecordType::Mx => outcome_of(answers.mx, |m: MxData| mx_spec(m.preference, m.exchange@)),
        RecordType::Ns => outcome_texts(answers.ns),
        RecordType::Txt => match answers.txt {
            Ok(v) => Ok(txt_spec(v@)),
            Err(e) => Err(e@),
        },
        RecordType::Cname => outcome_texts(answers.cname),
    }
}

/// The records reported for an outcome: the records themselves on success,
/// a single error marker on failure.
pub open spec fn entry_records(outcome: Result<Seq<Seq<char>>, Seq<char>>) -> Seq<Seq<char>> {
    match outcome {
        Ok(records) => records,
        Err(message) => seq![error_spec(message)],
    }
}

/// The records that a lookup reports for record type `t`.
pub open spec fn expected_records(answers: Answers, t: RecordType) -> Seq<Seq<char>> {
    entry_records(normalized(answers, t))
}

/// Text of each IPv4 address.
pub fn ipv4_records(addrs: &Vec<[u8; 4]>) -> (r: Vec<String>)
    ensures
        texts(r@) == addrs@.map_values(|o: [u8; 4]| ipv4_spec(o@)),
{
    let mut r: Vec<String> = Vec::new();
    let mut i: usize = 0;
    while i < addrs.len()
        invariant
            i <= addrs.len(),
            texts(r@) =~= addrs@.subrange(0, i as int).map_values(|o: [u8; 4]| ipv4_spec(o@)),
        decreases addrs.len() - i,
    {
        let ghost before = r@;
        let t = ipv4_text(addrs[i]);
        r.push(t);
        assert(texts(r@) =~= texts(before).push(t@));
        assert(addrs@.subrange(0, i + 1) =~= addrs@.subrange(0, i as int).push(addrs@[i as int]));
        i += 1;
    }
    assert(addrs@.subrange(0, i as int) =~= addrs@);
    r
}

/// Text of each mail-exchange record.
pub fn mx_records(records: &Vec<MxData>) -> (r: Vec<String>)
    ensures
        texts(r@) == records@.map_values(|m: MxData| mx_spec(m.preference, m.exchange@)),
{
    let mut r: Vec<String> = Vec::new();
    let mut i: usize = 0;
    while i < records.len()
        invariant
            i <= records.len(),
            texts(r@) =~= records@.subrange(0, i as int).map_values(
                |m: MxData| mx_spec(m.preference, m.exchange@),
            ),
        decreases records.len() - i,
    {
        let ghost before = r@;
        let t = mx_text(&records[i]);
        r.push(t);
        assert(texts(r@) =~= texts(before).push(t@));
        assert(records@.subrange(0, i + 1) =~= records@.subrange(0, i as int).push(
            records@[i as int],
        ));
        i += 1;
    }
    assert(records@.subrange(0, i as int) =~= records@);
    r
}

/// A copy of each text.
pub fn copy_texts(v: &Vec<String>) -> (r: Vec<String>)
    ensures
        texts(r@) == texts(v@),
{
    let mut r: Vec<String> = Vec::new();
    let mut i: usize = 0;
    while i < v.len()
        invariant
            i <= v.len(),
            texts(r@) =~= texts(v@.subrange(0, i as int)),
        decreases v.len() - i,
    {
        let ghost before = r@;
        let t = v[i].clone();
        r.push(t);
        assert(texts(r@) =~= texts(before).push(t@));
        assert(v@.subrange(0, i + 1) =~= v@.subrange(0, i as int).push(v@[i as int]));
        i += 1;
    }
    assert(v@.subrange(0, i as int) =~= v@);
    r
}

/// Every data chunk of every TXT record, decoded leniently, in order: one
/// string per chunk, not one per record.
pub fn txt_chunks(records: &Vec<Vec<Vec<u8>>>) -> (r: Vec<String>)
    ensures
        texts(r@) == txt_spec(records@),
{
    let mut r: Vec<String> = Vec::new();
    let mut i: usize = 0;
    while i < records.len()
        invariant
            i <= records.len(),
            texts(r@) == txt_spec(records@.subrange(0, i as int)),
        decreases records.len() - i,
    {
        let record = &records[i];
        let mut j: usize = 0;
        while j < record.len()
            invariant
                i < records.len(),
                *record == records@[i as int],
                j <= record.len(),
                texts(r@) == txt_spec(records@.subrange(0, i as int)) + record_chunks(
                    record@.subrange(0, j as int),
                ),
            decreases record.len() - j,
        {
            let ghost before = texts(r@);
            let t = chunk_text(&record[j]);
            r.push(t);
            assert(texts(r@) =~= before.push(t@));
            assert(record_chunks(record@.subrange(0, j + 1)) =~= record_chunks(
                record@.subrange(0, j as int),
            ).push(lossy_text(record@[j as int]@)));
            j += 1;
        }
        assert(record@.subrange(0, j as int) =~= record@);
        assert(records@.subrange(0, i + 1).drop_last() =~= records@.subrange(0, i as int));
        i += 1;
    }
    assert(records@.subrange(0, i as int) =~= records@);
    r
}

/// The entry for one record type: the records on success, a single
/// `Error: <message>` marker on failure.
pub fn entry(record_type: RecordType, outcome: Result<Vec<String>, String>) -> (r: DnsResult)
    ensures
        r.record_type == record_type,
        texts(r.records@) == entry_records(outcome_texts(outcome)),
{
    match outcome {
        Ok(records) => DnsResult { record_type, records },
        Err(message) => {
            let records = vec![error_marker(message.as_str())];
            assert(texts(records@) =~= seq![error_spec(message@)]);
            DnsResult { record_type, records }
        },
    }
}

fn copy_error(message: &String) -> (r: String)
    ensures
        r@ == message@,
{
    message.clone()
}

/// The normalized outcome of the query for one record type.
pub fn normalize(answers: &Answers, t: RecordType) -> (r: Result<Vec<String>, String>)
    ensures
        outcome_texts(r) == normalized(*answers, t),
{
    let r = match t {
        RecordType::A => match &answers.a {
            Ok(v) => Ok(ipv4_records(v)),
            Err(e) => Err(copy_error(e)),
        },
        RecordType::Aaaa => match &answers.aaaa {
            Ok(v) => Ok(copy_texts(v)),
            Err(e) => Err(copy_error(e)),
        },
        RecordType::Mx => match &answers.mx {
            Ok(v) => Ok(mx_records(v)),
            Err(e) => Err(copy_error(e)),
        },
        RecordType::Ns => match &answers.ns {
            Ok(v) => Ok(copy_texts(v)),
            Err(e) => Err(copy_error(e)),
        },
        RecordType::Txt => match &answers.txt {
            Ok(v) => Ok(txt_chunks(v)),
            Err(e) => Err(copy_error(e)),
        },
        RecordType::Cname => match &answers.cname {
            Ok(v) => Ok(copy_texts(v)),
            Err(e) => Err(copy_error(e)),
        },
    };
    r
}

/// The response for one domain: exactly one entry per record type, in the
/// canonical order `A, AAAA, MX, NS, TXT, CNAME`, whatever the outcomes and
/// whatever order the queries completed in.
pub fn aggregate(answers: &Answers) -> (r: Vec<DnsResult>)
    ensures
        r@.len() == RECORD_TYPE_COUNT,
        forall|i: int|
            0 <= i < RECORD_TYPE_COUNT ==> (#[trigger] r@[i]).record_type == canonical_order()[i]
                && texts(r@[i].records@) == expected_records(*answers, canonical_order()[i]),
{
    let types = RecordType::all();
    let mut r: Vec<DnsResult> = Vec::new();
    let mut i: usize = 0;
    while i < types.len()
        invariant
            types@ == canonical_order(),
            i <= types.len(),
            r@.len() == i,
            forall|k: int|
                0 <= k < i ==> (#[trigger] r@[k]).record_type == canonical_order()[k] && texts(
                    r@[k].records@,
                ) == expected_records(*answers, canonical_order()[k]),
        decreases types.len() - i,
    {
        let t = types[i];
        let outcome = normalize(answers, t);
        r.push(entry(t, outcome));
        i += 1;
    }
    r
}

} // verus!
