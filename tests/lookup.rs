use dns_lookup::aggregate::{
    aggregate, copy_texts, entry, ipv4_records, mx_records, normalize, txt_chunks, Answers,
    DnsResult,
};
use dns_lookup::record_type::{RecordType, RECORD_TYPE_COUNT};
use dns_lookup::text::{
    chunk_text, decimal_text, error_marker, ipv4_text, mx_text, push_decimal, MxData,
};

fn strings(v: &[&str]) -> Vec<String> {
    v.iter().map(|s| s.to_string()).collect()
}

fn failed(message: &str) -> String {
    message.to_string()
}

fn all_failed(message: &str) -> Answers {
    Answers {
        a: Err(failed(message)),
        aaaa: Err(failed(message)),
        mx: Err(failed(message)),
        ns: Err(failed(message)),
        txt: Err(failed(message)),
        cname: Err(failed(message)),
    }
}

fn example_answers() -> Answers {
    Answers {
        a: Ok(vec![[93, 184, 216, 34]]),
        aaaa: Ok(vec![]),
        mx: Ok(vec![MxData { preference: 10, exchange: "mail.example.com".to_string() }]),
        ns: Ok(strings(&["ns1.example.com", "ns2.example.com"])),
        txt: Ok(vec![vec![b"v=spf1 -all".to_vec()]]),
        cname: Err(failed("no CNAME record found")),
    }
}

fn types_of(r: &[DnsResult]) -> Vec<RecordType> {
    r.iter().map(|e| e.record_type).collect()
}

const CANONICAL: [RecordType; 6] = [
    RecordType::A,
    RecordType::Aaaa,
    RecordType::Mx,
    RecordType::Ns,
    RecordType::Txt,
    RecordType::Cname,
];

#[test]
fn example_domain_scenario() {
    let r = aggregate(&example_answers());
    assert_eq!(r.len(), 6);
    assert_eq!(types_of(&r), CANONICAL.to_vec());
    assert_eq!(r[0].records, strings(&["93.184.216.34"]));
    assert!(r[1].records.is_empty());
    assert_eq!(r[2].records, strings(&["10 mail.example.com"]));
    assert_eq!(r[3].records, strings(&["ns1.example.com", "ns2.example.com"]));
    assert_eq!(r[4].records, strings(&["v=spf1 -all"]));
    assert_eq!(r[5].records, strings(&["Error: no CNAME record found"]));
}

#[test]
fn empty_domain_still_gives_six_entries() {
    let r = aggregate(&all_failed("empty name"));
    assert_eq!(r.len(), RECORD_TYPE_COUNT);
    assert_eq!(types_of(&r), CANONICAL.to_vec());
    for e in &r {
        assert_eq!(e.records, strings(&["Error: empty name"]));
    }
}

#[test]
fn empty_domain_with_empty_answers() {
    let answers = Answers {
        a: Ok(vec![]),
        aaaa: Ok(vec![]),
        mx: Ok(vec![]),
        ns: Ok(vec![]),
        txt: Ok(vec![]),
        cname: Ok(vec![]),
    };
    let r = aggregate(&answers);
    assert_eq!(types_of(&r), CANONICAL.to_vec());
    assert!(r.iter().all(|e| e.records.is_empty()));
}

#[test]
fn slow_aaaa_still_precedes_txt() {
    // The TXT slot is filled first and the AAAA slot last, as when the AAAA
    // query completes after the TXT one.
    let mut answers = all_failed("pending");
    answers.txt = Ok(vec![vec![b"first".to_vec()]]);
    answers.cname = Ok(strings(&["alias.example.com."]));
    answers.a = Ok(vec![[10, 0, 0, 1]]);
    answers.aaaa = Ok(strings(&["2001:db8::1"]));
    let r = aggregate(&answers);
    assert_eq!(types_of(&r), CANONICAL.to_vec());
    assert_eq!(r[1].record_type, RecordType::Aaaa);
    assert_eq!(r[1].records, strings(&["2001:db8::1"]));
    assert_eq!(r[4].record_type, RecordType::Txt);
    assert_eq!(r[4].records, strings(&["first"]));
}

#[test]
fn one_failure_leaves_the_others_alone() {
    let mut answers = example_answers();
    answers.mx = Err(failed("timed out"));
    let r = aggregate(&answers);
    assert_eq!(r[0].records, strings(&["93.184.216.34"]));
    assert_eq!(r[2].records, strings(&["Error: timed out"]));
    assert_eq!(r[3].records.len(), 2);
}

#[test]
fn txt_flattens_one_string_per_chunk() {
    let records = vec![
        vec![b"abc".to_vec(), b"def".to_vec()],
        vec![],
        vec![b"ghi".to_vec()],
    ];
    assert_eq!(txt_chunks(&records), strings(&["abc", "def", "ghi"]));
}

#[test]
fn txt_invalid_bytes_are_substituted() {
    let records = vec![vec![b"ok".to_vec(), vec![0x61, 0xff, 0x62], vec![0xc3]]];
    let r = txt_chunks(&records);
    assert_eq!(r.len(), 3);
    assert_eq!(r[0], "ok");
    assert_eq!(r[1], "a\u{FFFD}b");
    assert_eq!(r[2], "\u{FFFD}");
}

#[test]
fn chunk_text_decodes_utf8() {
    assert_eq!(chunk_text(&"h\u{e9}".as_bytes().to_vec()), "h\u{e9}");
    assert_eq!(chunk_text(&vec![]), "");
    assert_eq!(chunk_text(&vec![0x80]), "\u{FFFD}");
}

#[test]
fn decimal_text_values() {
    assert_eq!(decimal_text(0), "0");
    assert_eq!(decimal_text(7), "7");
    assert_eq!(decimal_text(10), "10");
    assert_eq!(decimal_text(65535), "65535");
    assert_eq!(decimal_text(u64::MAX), "18446744073709551615");
}

#[test]
fn push_decimal_appends() {
    let mut s = "n=".to_string();
    push_decimal(&mut s, 305);
    assert_eq!(s, "n=305");
}

#[test]
fn ipv4_text_values() {
    assert_eq!(ipv4_text([93, 184, 216, 34]), "93.184.216.34");
    assert_eq!(ipv4_text([0, 0, 0, 0]), "0.0.0.0");
    assert_eq!(ipv4_text([255, 255, 255, 255]), "255.255.255.255");
    assert_eq!(ipv4_records(&vec![[127, 0, 0, 1], [10, 1, 2, 3]]), strings(&["127.0.0.1", "10.1.2.3"]));
}

#[test]
fn mx_text_values() {
    let mx = MxData { preference: 0, exchange: "mx.example.org.".to_string() };
    assert_eq!(mx_text(&mx), "0 mx.example.org.");
    let records = vec![
        MxData { preference: 10, exchange: "a.example.".to_string() },
        MxData { preference: 65535, exchange: "b.example.".to_string() },
    ];
    assert_eq!(mx_records(&records), strings(&["10 a.example.", "65535 b.example."]));
}

#[test]
fn error_marker_prefixes_message() {
    assert_eq!(error_marker("NXDOMAIN"), "Error: NXDOMAIN");
    assert_eq!(error_marker(""), "Error: ");
}

#[test]
fn entry_success_and_failure() {
    let ok = entry(RecordType::Ns, Ok(strings(&["ns.example."])));
    assert_eq!(ok.record_type, RecordType::Ns);
    assert_eq!(ok.records, strings(&["ns.example."]));
    let empty = entry(RecordType::Mx, Ok(vec![]));
    assert!(empty.records.is_empty());
    let err = entry(RecordType::Cname, Err("refused".to_string()));
    assert_eq!(err.record_type, RecordType::Cname);
    assert_eq!(err.records, strings(&["Error: refused"]));
}

#[test]
fn normalize_dispatches_per_type() {
    let answers = example_answers();
    assert_eq!(normalize(&answers, RecordType::A), Ok(strings(&["93.184.216.34"])));
    assert_eq!(normalize(&answers, RecordType::Mx), Ok(strings(&["10 mail.example.com"])));
    assert_eq!(normalize(&answers, RecordType::Txt), Ok(strings(&["v=spf1 -all"])));
    assert_eq!(
        normalize(&answers, RecordType::Cname),
        Err("no CNAME record found".to_string())
    );
}

#[test]
fn copy_texts_keeps_order() {
    let v = strings(&["b", "a", "c"]);
    assert_eq!(copy_texts(&v), v);
}

#[test]
fn record_type_names_and_order() {
    let names: Vec<String> = RecordType::all().iter().map(|t| t.name()).collect();
    assert_eq!(names, strings(&["A", "AAAA", "MX", "NS", "TXT", "CNAME"]));
    assert_eq!(RecordType::all(), CANONICAL.to_vec());
    for i in 0..RECORD_TYPE_COUNT {
        assert_eq!(RecordType::from_index(i).index(), i);
        assert_eq!(RecordType::from_index(i), CANONICAL[i]);
    }
}
