//! The Debug State Object (DSO): a structured, machine-readable error
//! report with a stable error code, and its lossless textual form.

use vstd::prelude::*;
use vstd::string::*;
use crate::text::{
    dec_chars, dec_val, dec_value, is_dec_digit, lemma_dec_chars_digits, lemma_dec_round_trip,
    lemma_scan_digits_of_dec, push_char, push_dec_u64, scan_digits,
};

verus! {

/// A structured error report. Produced through [`DsoBuilder`]; never mutated
/// after construction; serializes losslessly to and from a textual form.
#[derive(Debug, Clone, PartialEq)]
pub struct DebugStateObject {
    /// Status of the report, e.g. `"ContractViolation"`.
    pub status: String,
    /// Machine-readable error code, e.g. `"DIVISION_BY_ZERO"`.
    pub error_code: String,
    /// Location reference (content-addressed node identifier).
    pub location: Option<String>,
    /// Context information, as key/value pairs.
    pub context: Vec<(String, String)>,
    /// The expected value or expression.
    pub expected: Option<String>,
    /// The actual value.
    pub actual: Option<String>,
    /// A suggested fix.
    pub suggestion: Option<String>,
    /// Open extension map, flattened into the top level of the textual form.
    pub extra: Vec<(String, String)>,
}

/// The mathematical model of a DSO.
pub ghost struct AbsDso {
    pub status: Seq<char>,
    pub error_code: Seq<char>,
    pub location: Option<Seq<char>>,
    pub context: Seq<(Seq<char>, Seq<char>)>,
    pub expected: Option<Seq<char>>,
    pub actual: Option<Seq<char>>,
    pub suggestion: Option<Seq<char>>,
    pub extra: Seq<(Seq<char>, Seq<char>)>,
}

/// The model of an optional string.
pub open spec fn opt_view(o: Option<String>) -> Option<Seq<char>> {
    match o {
        Some(s) => Some(s@),
        None => None,
    }
}

/// The model of a key/value list.
pub open spec fn kvs_view(v: Seq<(String, String)>) -> Seq<(Seq<char>, Seq<char>)> {
    v.map_values(|e: (String, String)| (e.0@, e.1@))
}

impl View for DebugStateObject {
    type V = AbsDso;

    open spec fn view(&self) -> AbsDso {
        AbsDso {
            status: self.status@,
            error_code: self.error_code@,
            location: opt_view(self.location),
            context: kvs_view(self.context@),
            expected: opt_view(self.expected),
            actual: opt_view(self.actual),
            suggestion: opt_view(self.suggestion),
            extra: kvs_view(self.extra@),
        }
    }
}

impl DebugStateObject {
    /// A report with the given status and error code and everything else
    /// empty.
    pub fn new(status: String, error_code: String) -> (d: DebugStateObject)
        ensures
            d@.status == status@,
            d@.error_code == error_code@,
            d@.location is None,
            d@.context =~= Seq::<(Seq<char>, Seq<char>)>::empty(),
            d@.expected is None,
            d@.actual is None,
            d@.suggestion is None,
            d@.extra =~= Seq::<(Seq<char>, Seq<char>)>::empty(),
    {
        DebugStateObject {
            status,
            error_code,
            location: None,
            context: Vec::new(),
            expected: None,
            actual: None,
            suggestion: None,
            extra: Vec::new(),
        }
    }
}

/// Builder for a [`DebugStateObject`]: every field is optional; the status
/// defaults to `"Unknown"` and the error code to `"UNKNOWN"`.
#[derive(Debug)]
pub struct DsoBuilder {
    status: Option<String>,
    error_code: Option<String>,
    location: Option<String>,
    context: Vec<(String, String)>,
    expected: Option<String>,
    actual: Option<String>,
    suggestion: Option<String>,
    extra: Vec<(String, String)>,
}

/// The mathematical model of the builder's partial report.
pub ghost struct AbsDsoBuilder {
    pub status: Option<Seq<char>>,
    pub error_code: Option<Seq<char>>,
    pub location: Option<Seq<char>>,
    pub context: Seq<(Seq<char>, Seq<char>)>,
    pub expected: Option<Seq<char>>,
    pub actual: Option<Seq<char>>,
    pub suggestion: Option<Seq<char>>,
    pub extra: Seq<(Seq<char>, Seq<char>)>,
}

impl View for DsoBuilder {
    type V = AbsDsoBuilder;

    closed spec fn view(&self) -> AbsDsoBuilder {
        AbsDsoBuilder {
            status: opt_view(self.status),
            error_code: opt_view(self.error_code),
            location: opt_view(self.location),
            context: kvs_view(self.context@),
            expected: opt_view(self.expected),
            actual: opt_view(self.actual),
            suggestion: opt_view(self.suggestion),
            extra: kvs_view(self.extra@),
        }
    }
}

/// What `build` produces from a partial report.
pub open spec fn spec_build(b: AbsDsoBuilder) -> AbsDso {
    AbsDso {
        status: match b.status {
            Some(s) => s,
            None => "Unknown"@,
        },
        error_code: match b.error_code {
            Some(s) => s,
            None => "UNKNOWN"@,
        },
        location: b.location,
        context: b.context,
        expected: b.expected,
        actual: b.actual,
        suggestion: b.suggestion,
        extra: b.extra,
    }
}

impl DsoBuilder {
    /// A builder with every field unset.
    pub fn new() -> (b: DsoBuilder)
        ensures
            b@.status is None,
            b@.error_code is None,
            b@.location is None,
            b@.context =~= Seq::<(Seq<char>, Seq<char>)>::empty(),
            b@.expected is None,
            b@.actual is None,
            b@.suggestion is None,
            b@.extra =~= Seq::<(Seq<char>, Seq<char>)>::empty(),
    {
        DsoBuilder {
            status: None,
            error_code: None,
            location: None,
            context: Vec::new(),
            expected: None,
            actual: None,
            suggestion: None,
            extra: Vec::new(),
        }
    }

    /// Sets the status.
    pub fn status(self, status: String) -> (b: DsoBuilder)
        ensures
            b@ == (AbsDsoBuilder { status: Some(status@), ..self@ }),
    {
        DsoBuilder { status: Some(status), ..self }
    }

    /// Sets the error code.
    pub fn error_code(self, code: String) -> (b: DsoBuilder)
        ensures
            b@ == (AbsDsoBuilder { error_code: Some(code@), ..self@ }),
    {
        DsoBuilder { error_code: Some(code), ..self }
    }

    /// Sets the location reference.
    pub fn location(self, loc: String) -> (b: DsoBuilder)
        ensures
            b@ == (AbsDsoBuilder { location: Some(loc@), ..self@ }),
    {
        DsoBuilder { location: Some(loc), ..self }
    }

    /// Replaces the context key/value pairs.
    pub fn context(self, ctx: Vec<(String, String)>) -> (b: DsoBuilder)
        ensures
            b@ == (AbsDsoBuilder { context: kvs_view(ctx@), ..self@ }),
    {
        DsoBuilder { context: ctx, ..self }
    }

    /// Sets the expected value.
    pub fn expected(self, exp: String) -> (b: DsoBuilder)
        ensures
            b@ == (AbsDsoBuilder { expected: Some(exp@), ..self@ }),
    {
        DsoBuilder { expected: Some(exp), ..self }
    }

    /// Sets the actual value.
    pub fn actual(self, act: String) -> (b: DsoBuilder)
        ensures
            b@ == (AbsDsoBuilder { actual: Some(act@), ..self@ }),
    {
        DsoBuilder { actual: Some(act), ..self }
    }

    /// Sets the suggested fix.
    pub fn suggestion(self, sugg: String) -> (b: DsoBuilder)
        ensures
            b@ == (AbsDsoBuilder { suggestion: Some(sugg@), ..self@ }),
    {
        DsoBuilder { suggestion: Some(sugg), ..self }
    }

    /// Appends one extension entry.
    pub fn extra(self, key: String, value: String) -> (b: DsoBuilder)
        ensures
            b@ == (AbsDsoBuilder { extra: self@.extra.push((key@, value@)), ..self@ }),
    {
        let mut e = self.extra;
        e.push((key, value));
        let b = DsoBuilder { extra: e, ..self };
        proof {
            assert(b@.extra =~= self@.extra.push((key@, value@)));
        }
        b
    }

    /// Builds the report; unset status and error code take their defaults.
    pub fn build(self) -> (d: DebugStateObject)
        ensures
            d@ == spec_build(self@),
    {
        let d = DebugStateObject {
            status: match self.status {
                Some(s) => s,
                None => String::from_str("Unknown"),
            },
            error_code: match self.error_code {
                Some(s) => s,
                None => String::from_str("UNKNOWN"),
            },
            location: self.location,
            context: self.context,
            expected: self.expected,
            actual: self.actual,
            suggestion: self.suggestion,
            extra: self.extra,
        };
        d
    }
}

impl Default for DsoBuilder {
    fn default() -> (b: DsoBuilder)
        ensures
            b@.status is None,
            b@.error_code is None,
            b@.location is None,
            b@.context =~= Seq::<(Seq<char>, Seq<char>)>::empty(),
            b@.expected is None,
            b@.actual is None,
            b@.suggestion is None,
            b@.extra =~= Seq::<(Seq<char>, Seq<char>)>::empty(),
    {
        DsoBuilder::new()
    }
}


// ------------------------------------------------------------------
// The textual form.
//
// A report serializes as a sequence of records, one per present field,
// each of the shape
//
//     <key length> ' ' <key> ' ' <value length> ' ' <value> '\n'
//
// with both lengths in decimal and counted in characters, so that keys
// and values may hold any character. The fixed fields come first, the
// context as one record whose value is itself a record sequence, and
// the extension map flattened behind them; on reading, an unknown key
// becomes an extension entry.
// ------------------------------------------------------------------

/// The encoding of one record.
pub open spec fn enc_kv(k: Seq<char>, v: Seq<char>) -> Seq<char> {
    dec_chars(k.len()) + seq![' '] + k + seq![' '] + dec_chars(v.len()) + seq![' '] + v + seq![
        '\n',
    ]
}

/// The encoding of a record sequence.
pub open spec fn enc_kvs(list: Seq<(Seq<char>, Seq<char>)>) -> Seq<char>
    decreases list.len(),
{
    if list.len() == 0 {
        Seq::empty()
    } else {
        enc_kv(list[0].0, list[0].1) + enc_kvs(list.drop_first())
    }
}

/// The record of an optional field: absent fields encode as nothing.
pub open spec fn opt_field(k: Seq<char>, o: Option<Seq<char>>) -> Seq<(Seq<char>, Seq<char>)> {
    match o {
        Some(v) => seq![(k, v)],
        None => Seq::empty(),
    }
}

/// The records of a report, in serialization order.
pub open spec fn dso_fields(d: AbsDso) -> Seq<(Seq<char>, Seq<char>)> {
    seq![("status"@, d.status), ("error_code"@, d.error_code)] + opt_field("location"@, d.location)
        + opt_field("expected"@, d.expected) + opt_field("actual"@, d.actual) + opt_field(
        "suggestion"@,
        d.suggestion,
    ) + seq![("context"@, enc_kvs(d.context))] + d.extra
}

/// The textual form of a report.
pub open spec fn dso_text(d: AbsDso) -> Seq<char> {
    enc_kvs(dso_fields(d))
}

/// Reads one record at position `i`: the key, the value, and the position
/// after the record.
pub open spec fn parse_kv(s: Seq<char>, i: int) -> Option<(Seq<char>, Seq<char>, int)> {
    let j = scan_digits(s, i);
    if j == i || j >= s.len() || s[j] != ' ' {
        None
    } else {
        let klen = dec_value(s.subrange(i, j)) as int;
        let ks = j + 1;
        if ks + klen > s.len() {
            None
        } else {
            let key = s.subrange(ks, ks + klen);
            let i2 = ks + klen;
            if i2 >= s.len() || s[i2] != ' ' {
                None
            } else {
                let j2 = scan_digits(s, i2 + 1);
                if j2 == i2 + 1 || j2 >= s.len() || s[j2] != ' ' {
                    None
                } else {
                    let vlen = dec_value(s.subrange(i2 + 1, j2)) as int;
                    let vs = j2 + 1;
                    if vs + vlen > s.len() {
                        None
                    } else {
                        let val = s.subrange(vs, vs + vlen);
                        let i3 = vs + vlen;
                        if i3 >= s.len() || s[i3] != '\n' {
                            None
                        } else {
                            Some((key, val, i3 + 1))
                        }
                    }
                }
            }
        }
    }
}

/// Reads records from position `i` to the end of the text.
pub open spec fn parse_kvs(s: Seq<char>, i: int) -> Option<Seq<(Seq<char>, Seq<char>)>>
    decreases s.len() - i
        when i <= s.len()
{
    if i >= s.len() {
        Some(Seq::empty())
    } else {
        match parse_kv(s, i) {
            None => None,
            Some((k, v, next)) => if next <= i || next > s.len() {
                None
            } else {
                match parse_kvs(s, next) {
                    None => None,
                    Some(rest) => Some(seq![(k, v)] + rest),
                }
            },
        }
    }
}

/// The keys with a fixed meaning at the top level of the textual form.
pub open spec fn is_reserved(k: Seq<char>) -> bool {
    ||| k == "status"@
    ||| k == "error_code"@
    ||| k == "location"@
    ||| k == "expected"@
    ||| k == "actual"@
    ||| k == "suggestion"@
    ||| k == "context"@
}

/// The report every read starts from: builder defaults, everything else
/// empty.
pub open spec fn default_dso() -> AbsDso {
    AbsDso {
        status: "Unknown"@,
        error_code: "UNKNOWN"@,
        location: None,
        context: Seq::empty(),
        expected: None,
        actual: None,
        suggestion: None,
        extra: Seq::empty(),
    }
}

/// Applies one record to a report under construction: known keys set their
/// field, the context record is read as a nested record sequence, and an
/// unknown key becomes an extension entry.
pub open spec fn apply_record(d: AbsDso, k: Seq<char>, v: Seq<char>) -> Option<AbsDso> {
    if k == "status"@ {
        Some(AbsDso { status: v, ..d })
    } else if k == "error_code"@ {
        Some(AbsDso { error_code: v, ..d })
    } else if k == "location"@ {
        Some(AbsDso { location: Some(v), ..d })
    } else if k == "expected"@ {
        Some(AbsDso { expected: Some(v), ..d })
    } else if k == "actual"@ {
        Some(AbsDso { actual: Some(v), ..d })
    } else if k == "suggestion"@ {
        Some(AbsDso { suggestion: Some(v), ..d })
    } else if k == "context"@ {
        match parse_kvs(v, 0) {
            Some(list) => Some(AbsDso { context: list, ..d }),
            None => None,
        }
    } else {
        Some(AbsDso { extra: d.extra.push((k, v)), ..d })
    }
}

/// Applies records in order.
pub open spec fn apply_records(d: AbsDso, recs: Seq<(Seq<char>, Seq<char>)>) -> Option<AbsDso>
    decreases recs.len(),
{
    if recs.len() == 0 {
        Some(d)
    } else {
        match apply_record(d, recs[0].0, recs[0].1) {
            None => None,
            Some(d2) => apply_records(d2, recs.drop_first()),
        }
    }
}

/// What reading a text yields.
pub open spec fn parse_dso(s: Seq<char>) -> Option<AbsDso> {
    match parse_kvs(s, 0) {
        None => None,
        Some(recs) => apply_records(default_dso(), recs),
    }
}

/// A report whose textual form reads back to itself: since the extension
/// map is flattened into the top level, its keys must not shadow the fixed
/// field keys.
pub open spec fn text_wf(d: AbsDso) -> bool {
    forall|i: int| 0 <= i < d.extra.len() ==> !is_reserved(#[trigger] d.extra[i].0)
}


/// A character of an embedded text, read through the embedding.
proof fn lemma_embed_index(s: Seq<char>, i: int, e: Seq<char>, p: int)
    requires
        0 <= i,
        i + e.len() <= s.len(),
        s.subrange(i, i + e.len() as int) == e,
        i <= p < i + e.len(),
    ensures
        s[p] == e[p - i],
{
    assert(s.subrange(i, i + e.len() as int)[p - i] == s[p]);
}

/// A subrange of an embedded text, read through the embedding.
proof fn lemma_embed_subrange(s: Seq<char>, i: int, e: Seq<char>, a: int, b: int)
    requires
        0 <= i,
        i + e.len() <= s.len(),
        s.subrange(i, i + e.len() as int) == e,
        i <= a <= b <= i + e.len(),
    ensures
        s.subrange(a, b) == e.subrange(a - i, b - i),
{
    assert forall|y: int| 0 <= y < b - a implies s.subrange(a, b)[y] == e.subrange(
        a - i,
        b - i,
    )[y] by {
        lemma_embed_index(s, i, e, a + y);
    }
    assert(s.subrange(a, b) =~= e.subrange(a - i, b - i));
}

/// A record's encoding, embedded in a larger text, reads back as exactly
/// that record, ending right after its encoding.
proof fn lemma_parse_kv_embedded(s: Seq<char>, i: int, k: Seq<char>, v: Seq<char>)
    requires
        0 <= i,
        i + enc_kv(k, v).len() <= s.len(),
        s.subrange(i, i + enc_kv(k, v).len() as int) == enc_kv(k, v),
    ensures
        parse_kv(s, i) == Some((k, v, i + enc_kv(k, v).len() as int)),
{
    let dk = dec_chars(k.len());
    let dv = dec_chars(v.len());
    let enc = enc_kv(k, v);
    let el = enc.len() as int;
    lemma_dec_chars_digits(k.len());
    lemma_dec_chars_digits(v.len());
    lemma_dec_round_trip(k.len());
    lemma_dec_round_trip(v.len());

    let dkl = dk.len() as int;
    let dvl = dv.len() as int;
    let kl = k.len() as int;
    let vl = v.len() as int;

    // Offsets of the record's parts inside the encoding.
    let o_sp1 = dkl;
    let o_k = dkl + 1;
    let o_sp2 = o_k + kl;
    let o_dv = o_sp2 + 1;
    let o_sp3 = o_dv + dvl;
    let o_v = o_sp3 + 1;
    let o_nl = o_v + vl;
    assert(el == o_nl + 1);

    assert(enc.subrange(0, dkl) =~= dk);
    assert(enc[o_sp1] == ' ');
    assert(enc.subrange(o_k, o_k + kl) =~= k);
    assert(enc[o_sp2] == ' ');
    assert(enc.subrange(o_dv, o_dv + dvl) =~= dv);
    assert(enc[o_sp3] == ' ');
    assert(enc.subrange(o_v, o_v + vl) =~= v);
    assert(enc[o_nl] == '\n');

    // The first digit run and its terminating space.
    lemma_embed_subrange(s, i, enc, i, i + dkl);
    lemma_embed_index(s, i, enc, i + o_sp1);
    assert(s.subrange(i, i + dkl) == dk);
    assert(s[i + dkl] == ' ');
    assert(!is_dec_digit(' '));
    lemma_scan_digits_of_dec(s, i, k.len());
    let j = scan_digits(s, i);
    assert(j == i + dkl);
    assert(dec_value(s.subrange(i, j)) == k.len());

    // The key and its terminating space.
    let ks = j + 1;
    lemma_embed_subrange(s, i, enc, ks, ks + kl);
    assert(s.subrange(ks, ks + kl) == k);
    let i2 = ks + kl;
    lemma_embed_index(s, i, enc, i2);
    assert(s[i2] == ' ');

    // The second digit run and its terminating space.
    lemma_embed_subrange(s, i, enc, i2 + 1, i2 + 1 + dvl);
    lemma_embed_index(s, i, enc, i2 + 1 + dvl);
    assert(s.subrange(i2 + 1, i2 + 1 + dvl) == dv);
    assert(s[i2 + 1 + dvl] == ' ');
    lemma_scan_digits_of_dec(s, i2 + 1, v.len());
    let j2 = scan_digits(s, i2 + 1);
    assert(j2 == i2 + 1 + dvl);
    assert(dec_value(s.subrange(i2 + 1, j2)) == v.len());

    // The value and the closing newline.
    let vs = j2 + 1;
    lemma_embed_subrange(s, i, enc, vs, vs + vl);
    assert(s.subrange(vs, vs + vl) == v);
    lemma_embed_index(s, i, enc, vs + vl);
    assert(s[vs + vl] == '\n');
    assert(vs + vl + 1 == i + el);
}

/// The encoding of a record sequence that reaches the end of the text reads
/// back as exactly those records.
proof fn lemma_parse_enc_kvs(s: Seq<char>, i: int, recs: Seq<(Seq<char>, Seq<char>)>)
    requires
        0 <= i <= s.len(),
        i + enc_kvs(recs).len() == s.len(),
        s.subrange(i, s.len() as int) == enc_kvs(recs),
    ensures
        parse_kvs(s, i) == Some(recs),
    decreases recs.len(),
{
    if recs.len() == 0 {
        assert(i == s.len());
    } else {
        let k = recs[0].0;
        let v = recs[0].1;
        let e0 = enc_kv(k, v);
        let e0l = e0.len() as int;
        let rest = enc_kvs(recs.drop_first());
        let whole = enc_kvs(recs);
        assert(whole == e0 + rest);
        assert(whole.subrange(0, e0l) =~= e0);
        assert(whole.subrange(e0l, whole.len() as int) =~= rest);
        lemma_embed_subrange(s, i, whole, i, i + e0l);
        assert(s.subrange(i, i + e0l) == e0);
        lemma_parse_kv_embedded(s, i, k, v);
        let next = i + e0l;
        assert(e0l > 0);
        lemma_embed_subrange(s, i, whole, next, s.len() as int);
        assert(s.subrange(next, s.len() as int) == rest);
        lemma_parse_enc_kvs(s, next, recs.drop_first());
        assert(parse_kvs(s, i) == Some(seq![(k, v)] + recs.drop_first()));
        assert(seq![(k, v)] + recs.drop_first() =~= recs);
    }
}

/// Applying a concatenation of record lists applies them in order.
proof fn lemma_apply_records_concat(
    d: AbsDso,
    l1: Seq<(Seq<char>, Seq<char>)>,
    l2: Seq<(Seq<char>, Seq<char>)>,
)
    ensures
        apply_records(d, l1 + l2) == (match apply_records(d, l1) {
            Some(m) => apply_records(m, l2),
            None => None::<AbsDso>,
        }),
    decreases l1.len(),
{
    if l1.len() == 0 {
        assert(l1 + l2 =~= l2);
    } else {
        assert((l1 + l2)[0] == l1[0]);
        match apply_record(d, l1[0].0, l1[0].1) {
            None => {
                assert((l1 + l2).len() > 0);
            },
            Some(d2) => {
                assert((l1 + l2).drop_first() =~= l1.drop_first() + l2);
                lemma_apply_records_concat(d2, l1.drop_first(), l2);
            },
        }
    }
}

/// Applying one record alone.
proof fn lemma_apply_single(d: AbsDso, k: Seq<char>, v: Seq<char>, d2: AbsDso)
    requires
        apply_record(d, k, v) == Some(d2),
    ensures
        apply_records(d, seq![(k, v)]) == Some(d2),
{
    let l = seq![(k, v)];
    assert(l[0].0 == k && l[0].1 == v);
    assert(l.drop_first() =~= Seq::<(Seq<char>, Seq<char>)>::empty());
    assert(apply_records(d2, l.drop_first()) == Some(d2));
}

/// Applying records whose keys are all unknown appends them, in order, to
/// the extension map.
proof fn lemma_apply_extras(d: AbsDso, recs: Seq<(Seq<char>, Seq<char>)>)
    requires
        forall|i: int| 0 <= i < recs.len() ==> !is_reserved(#[trigger] recs[i].0),
    ensures
        apply_records(d, recs) == Some(AbsDso { extra: d.extra + recs, ..d }),
    decreases recs.len(),
{
    if recs.len() == 0 {
        assert(d.extra + recs =~= d.extra);
        assert((AbsDso { extra: d.extra + recs, ..d }) =~~= d);
    } else {
        assert(!is_reserved(recs[0].0));
        let d2 = AbsDso { extra: d.extra.push(recs[0]), ..d };
        assert((recs[0].0, recs[0].1) == recs[0]);
        assert(apply_record(d, recs[0].0, recs[0].1) == Some(d2));
        lemma_apply_extras(d2, recs.drop_first());
        assert(d2.extra + recs.drop_first() =~= d.extra + recs);
    }
}

/// The segment of the record list that one field contributes, applied to a
/// report under construction.
#[verifier::rlimit(100)]
proof fn lemma_apply_fields(d: AbsDso)
    requires
        text_wf(d),
    ensures
        apply_records(default_dso(), dso_fields(d)) == Some(d),
{
    reveal_strlit("status");
    reveal_strlit("error_code");
    reveal_strlit("location");
    reveal_strlit("expected");
    reveal_strlit("actual");
    reveal_strlit("suggestion");
    reveal_strlit("context");
    assert("status"@.len() == 6);
    assert("error_code"@.len() == 10);
    assert("location"@.len() == 8);
    assert("expected"@.len() == 8);
    assert("actual"@.len() == 6);
    assert("suggestion"@.len() == 10);
    assert("context"@.len() == 7);
    assert("error_code"@ != "status"@);
    assert("actual"@[0] == 'a' && "status"@[0] == 's');
    assert("suggestion"@[0] == 's' && "error_code"@[0] == 'e');
    assert("expected"@[0] == 'e' && "location"@[0] == 'l');
    assert("actual"@ != "status"@);
    assert("suggestion"@ != "error_code"@);
    assert("expected"@ != "location"@);
    assert("context"@ != "status"@ && "context"@ != "error_code"@ && "context"@ != "location"@
        && "context"@ != "expected"@ && "context"@ != "actual"@ && "context"@ != "suggestion"@);

    let d0 = default_dso();
    let s1 = seq![("status"@, d.status)];
    let s2 = seq![("error_code"@, d.error_code)];
    let f_loc = opt_field("location"@, d.location);
    let f_exp = opt_field("expected"@, d.expected);
    let f_act = opt_field("actual"@, d.actual);
    let f_sug = opt_field("suggestion"@, d.suggestion);
    let f_ctx = seq![("context"@, enc_kvs(d.context))];

    let d1 = AbsDso { status: d.status, ..d0 };
    lemma_apply_single(d0, "status"@, d.status, d1);

    let d2 = AbsDso { error_code: d.error_code, ..d1 };
    lemma_apply_single(d1, "error_code"@, d.error_code, d2);

    let d3 = AbsDso { location: d.location, ..d2 };
    match d.location {
        Some(l) => {
            lemma_apply_single(d2, "location"@, l, d3);
        },
        None => {
            assert(d3 =~~= d2);
        },
    }
    assert(apply_records(d2, f_loc) == Some(d3));

    let d4 = AbsDso { expected: d.expected, ..d3 };
    match d.expected {
        Some(l) => {
            lemma_apply_single(d3, "expected"@, l, d4);
        },
        None => {
            assert(d4 =~~= d3);
        },
    }
    assert(apply_records(d3, f_exp) == Some(d4));

    let d5 = AbsDso { actual: d.actual, ..d4 };
    match d.actual {
        Some(l) => {
            lemma_apply_single(d4, "actual"@, l, d5);
        },
        None => {
            assert(d5 =~~= d4);
        },
    }
    assert(apply_records(d4, f_act) == Some(d5));

    let d6 = AbsDso { suggestion: d.suggestion, ..d5 };
    match d.suggestion {
        Some(l) => {
            lemma_apply_single(d5, "suggestion"@, l, d6);
        },
        None => {
            assert(d6 =~~= d5);
        },
    }
    assert(apply_records(d5, f_sug) == Some(d6));

    let d7 = AbsDso { context: d.context, ..d6 };
    let ctext = enc_kvs(d.context);
    assert(ctext.subrange(0, ctext.len() as int) =~= ctext);
    lemma_parse_enc_kvs(ctext, 0, d.context);
    assert(parse_kvs(ctext, 0) == Some(d.context));
    lemma_apply_single(d6, "context"@, ctext, d7);

    lemma_apply_extras(d7, d.extra);
    assert(d7.extra + d.extra =~= d.extra);
    assert((AbsDso { extra: d7.extra + d.extra, ..d7 }) =~~= d);
    assert(apply_records(d7, d.extra) == Some(d));

    let tail6 = d.extra;
    let tail5 = f_ctx + tail6;
    let tail4 = f_sug + tail5;
    let tail3 = f_act + tail4;
    let tail2 = f_exp + tail3;
    let tail1 = f_loc + tail2;
    let tail0 = s2 + tail1;
    lemma_apply_records_concat(d6, f_ctx, tail6);
    lemma_apply_records_concat(d5, f_sug, tail5);
    lemma_apply_records_concat(d4, f_act, tail4);
    lemma_apply_records_concat(d3, f_exp, tail3);
    lemma_apply_records_concat(d2, f_loc, tail2);
    lemma_apply_records_concat(d1, s2, tail1);
    lemma_apply_records_concat(d0, s1, tail0);
    assert(dso_fields(d) =~= s1 + tail0);
}

/// Law: a report round-trips through its textual form: reading back what
/// `dso_text` wrote yields the same report, for every combination of
/// fields. Because the extension map is flattened into the top level, the
/// law asks that its keys do not shadow the fixed field keys.
pub proof fn lemma_dso_round_trip(d: AbsDso)
    requires
        text_wf(d),
    ensures
        parse_dso(dso_text(d)) == Some(d),
{
    let text = dso_text(d);
    let recs = dso_fields(d);
    assert(text.subrange(0, text.len() as int) =~= enc_kvs(recs));
    lemma_parse_enc_kvs(text, 0, recs);
    assert(parse_kvs(text, 0) == Some(recs));
    lemma_apply_fields(d);
}

/// Encoding distributes over concatenation of record lists.
proof fn lemma_enc_kvs_concat(l1: Seq<(Seq<char>, Seq<char>)>, l2: Seq<(Seq<char>, Seq<char>)>)
    ensures
        enc_kvs(l1 + l2) == enc_kvs(l1) + enc_kvs(l2),
    decreases l1.len(),
{
    if l1.len() == 0 {
        assert(l1 + l2 =~= l2);
        assert(enc_kvs(l1) + enc_kvs(l2) =~= enc_kvs(l2));
    } else {
        assert((l1 + l2)[0] == l1[0]);
        assert((l1 + l2).drop_first() =~= l1.drop_first() + l2);
        lemma_enc_kvs_concat(l1.drop_first(), l2);
        assert(enc_kvs(l1 + l2) =~= enc_kvs(l1) + enc_kvs(l2));
    }
}

/// The encoding of an optional field.
pub open spec fn enc_opt(k: Seq<char>, o: Option<Seq<char>>) -> Seq<char> {
    match o {
        Some(v) => enc_kv(k, v),
        None => Seq::empty(),
    }
}

/// Encoding a list that starts with one record.
proof fn lemma_enc_cons(k: Seq<char>, v: Seq<char>, rest: Seq<(Seq<char>, Seq<char>)>)
    ensures
        enc_kvs(seq![(k, v)] + rest) == enc_kv(k, v) + enc_kvs(rest),
{
    let l = seq![(k, v)] + rest;
    assert(l[0] == (k, v));
    assert(l.drop_first() =~= rest);
}

/// Encoding a list that starts with one optional field.
proof fn lemma_enc_opt_cons(k: Seq<char>, o: Option<Seq<char>>, rest: Seq<(Seq<char>, Seq<char>)>)
    ensures
        enc_kvs(opt_field(k, o) + rest) == enc_opt(k, o) + enc_kvs(rest),
{
    match o {
        Some(v) => {
            assert(opt_field(k, o) + rest =~= seq![(k, v)] + rest);
            lemma_enc_cons(k, v, rest);
        },
        None => {
            assert(opt_field(k, o) + rest =~= rest);
            assert(enc_opt(k, o) + enc_kvs(rest) =~= enc_kvs(rest));
        },
    }
}

/// The textual form, written out field by field (grouped to the right).
proof fn lemma_dso_text_assembly(d: AbsDso)
    ensures
        dso_text(d) == enc_kv("status"@, d.status) + (enc_kv("error_code"@, d.error_code)
            + (enc_opt("location"@, d.location) + (enc_opt("expected"@, d.expected) + (enc_opt(
            "actual"@,
            d.actual,
        ) + (enc_opt("suggestion"@, d.suggestion) + (enc_kv("context"@, enc_kvs(d.context))
            + enc_kvs(d.extra))))))),
{
    let f_loc = opt_field("location"@, d.location);
    let f_exp = opt_field("expected"@, d.expected);
    let f_act = opt_field("actual"@, d.actual);
    let f_sug = opt_field("suggestion"@, d.suggestion);
    let t5 = seq![("context"@, enc_kvs(d.context))] + d.extra;
    let t4 = f_sug + t5;
    let t3 = f_act + t4;
    let t2 = f_exp + t3;
    let t1 = f_loc + t2;
    let t0 = seq![("error_code"@, d.error_code)] + t1;
    lemma_enc_cons("context"@, enc_kvs(d.context), d.extra);
    lemma_enc_opt_cons("suggestion"@, d.suggestion, t5);
    lemma_enc_opt_cons("actual"@, d.actual, t4);
    lemma_enc_opt_cons("expected"@, d.expected, t3);
    lemma_enc_opt_cons("location"@, d.location, t2);
    lemma_enc_cons("error_code"@, d.error_code, t1);
    lemma_enc_cons("status"@, d.status, t0);
    assert(dso_fields(d) =~= seq![("status"@, d.status)] + t0);
}

/// Concatenation of character sequences associates.
proof fn lemma_concat_assoc(a: Seq<char>, b: Seq<char>, c: Seq<char>)
    ensures
        (a + b) + c == a + (b + c),
{
    assert((a + b) + c =~= a + (b + c));
}

/// The empty sequence is a left unit of concatenation.
proof fn lemma_concat_empty(t: Seq<char>)
    ensures
        Seq::<char>::empty() + t == t,
{
    assert(Seq::<char>::empty() + t =~= t);
}

/// Appends the record for one key/value pair.
fn push_kv(out: &mut String, key: &str, val: &str)
    ensures
        final(out)@ == old(out)@ + enc_kv(key@, val@),
{
    push_dec_u64(out, key.unicode_len() as u64);
    push_char(out, ' ');
    out.append(key);
    push_char(out, ' ');
    push_dec_u64(out, val.unicode_len() as u64);
    push_char(out, ' ');
    out.append(val);
    push_char(out, '\n');
    assert(out@ =~= old(out)@ + enc_kv(key@, val@));
}

/// Renders a key/value list as a record sequence.
fn kvs_text(list: &Vec<(String, String)>) -> (r: String)
    ensures
        r@ == enc_kvs(kvs_view(list@)),
{
    let ghost full = kvs_view(list@);
    let mut out = String::new();
    let n = list.len();
    proof {
        assert(full.skip(0) =~= full);
        assert(out@ + enc_kvs(full.skip(0)) =~= enc_kvs(full));
    }
    let mut i: usize = 0;
    while i < n
        invariant
            0 <= i <= n,
            n == list@.len(),
            full == kvs_view(list@),
            out@ + enc_kvs(full.skip(i as int)) =~= enc_kvs(full),
        decreases n - i,
    {
        proof {
            assert(full.skip(i as int)[0] == full[i as int]);
            assert(full[i as int] == (list@[i as int].0@, list@[i as int].1@));
            assert(full.skip(i as int).drop_first() =~= full.skip(i + 1));
        }
        let ghost before = out@;
        push_kv(&mut out, list[i].0.as_str(), list[i].1.as_str());
        proof {
            assert(enc_kvs(full.skip(i as int)) == enc_kv(full[i as int].0, full[i as int].1)
                + enc_kvs(full.skip(i + 1)));
            assert(out@ + enc_kvs(full.skip(i + 1)) =~= before + enc_kvs(full.skip(i as int)));
        }
        i += 1;
    }
    proof {
        assert(full.skip(n as int) =~= Seq::<(Seq<char>, Seq<char>)>::empty());
        assert(enc_kvs(full.skip(n as int)) =~= Seq::<char>::empty());
        assert(out@ =~= enc_kvs(full));
    }
    out
}

impl DebugStateObject {
    /// Renders the report in its textual form; [`DebugStateObject::from_text`]
    /// reads it back.
    #[verifier::rlimit(100)]
    pub fn to_text(&self) -> (r: String)
        ensures
            r@ == dso_text(self@),
    {
        let ghost d = self@;
        proof {
            lemma_dso_text_assembly(d);
        }
        let ghost x7 = enc_kvs(d.extra);
        let ghost x6 = enc_kv("context"@, enc_kvs(d.context)) + x7;
        let ghost x5 = enc_opt("suggestion"@, d.suggestion) + x6;
        let ghost x4 = enc_opt("actual"@, d.actual) + x5;
        let ghost x3 = enc_opt("expected"@, d.expected) + x4;
        let ghost x2 = enc_opt("location"@, d.location) + x3;
        let ghost x1 = enc_kv("error_code"@, d.error_code) + x2;
        let ghost x0 = enc_kv("status"@, d.status) + x1;
        let mut out = String::new();
        proof {
            assert(x0 == dso_text(d));
            lemma_concat_empty(x0);
            assert(out@ + x0 == x0);
        }
        let ghost o0 = out@;
        push_kv(&mut out, "status", self.status.as_str());
        proof {
            lemma_concat_assoc(o0, enc_kv("status"@, d.status), x1);
            assert(out@ + x1 == x0);
        }
        let ghost o1 = out@;
        push_kv(&mut out, "error_code", self.error_code.as_str());
        proof {
            lemma_concat_assoc(o1, enc_kv("error_code"@, d.error_code), x2);
            assert(out@ + x2 == x0);
        }
        let ghost o2 = out@;
        match &self.location {
            Some(l) => push_kv(&mut out, "location", l.as_str()),
            None => {},
        }
        proof {
            match d.location {
                Some(l) => {
                    lemma_concat_assoc(o2, enc_kv("location"@, l), x3);
                },
                None => {
                    lemma_concat_empty(x3);
                },
            }
            assert(out@ + x3 == x0);
        }
        let ghost o3 = out@;
        match &self.expected {
            Some(l) => push_kv(&mut out, "expected", l.as_str()),
            None => {},
        }
        proof {
            match d.expected {
                Some(l) => {
                    lemma_concat_assoc(o3, enc_kv("expected"@, l), x4);
                },
                None => {
                    lemma_concat_empty(x4);
                },
            }
            assert(out@ + x4 == x0);
        }
        let ghost o4 = out@;
        match &self.actual {
            Some(l) => push_kv(&mut out, "actual", l.as_str()),
            None => {},
        }
        proof {
            match d.actual {
                Some(l) => {
                    lemma_concat_assoc(o4, enc_kv("actual"@, l), x5);
                },
                None => {
                    lemma_concat_empty(x5);
                },
            }
            assert(out@ + x5 == x0);
        }
        let ghost o5 = out@;
        match &self.suggestion {
            Some(l) => push_kv(&mut out, "suggestion", l.as_str()),
            None => {},
        }
        proof {
            match d.suggestion {
                Some(l) => {
                    lemma_concat_assoc(o5, enc_kv("suggestion"@, l), x6);
                },
                None => {
                    lemma_concat_empty(x6);
                },
            }
            assert(out@ + x6 == x0);
        }
        let ghost o6 = out@;
        let ctx = kvs_text(&self.context);
        push_kv(&mut out, "context", ctx.as_str());
        proof {
            lemma_concat_assoc(o6, enc_kv("context"@, enc_kvs(d.context)), x7);
            assert(out@ + x7 == x0);
        }
        let extras = kvs_text(&self.extra);
        out.append(extras.as_str());
        proof {
            assert(out@ == x0);
        }
        out
    }
}

/// Reads a decimal digit run starting at `i`: where it ends, and its value,
/// clamped to `u64::MAX` (the clamp never hides a value that could matter,
/// because a clamped length always exceeds the rest of the text).
fn scan_number(s: &str, i: usize, n: usize) -> (res: (usize, u64))
    requires
        n == s@.len(),
        i <= n,
    ensures
        res.0 == scan_digits(s@, i as int),
        i <= res.0 <= n,
        res.1 <= dec_value(s@.subrange(i as int, res.0 as int)),
        res.1 == u64::MAX || res.1 as nat == dec_value(s@.subrange(i as int, res.0 as int)),
{
    let mut j = i;
    let mut val: u64 = 0;
    proof {
        assert(s@.subrange(i as int, i as int) =~= Seq::<char>::empty());
    }
    loop
        invariant_except_break
            n == s@.len(),
            i <= j <= n,
            scan_digits(s@, i as int) == scan_digits(s@, j as int),
            val <= dec_value(s@.subrange(i as int, j as int)),
            val == u64::MAX || val as nat == dec_value(s@.subrange(i as int, j as int)),
        ensures
            i <= j <= n,
            j == scan_digits(s@, i as int),
            val <= dec_value(s@.subrange(i as int, j as int)),
            val == u64::MAX || val as nat == dec_value(s@.subrange(i as int, j as int)),
        decreases n - j,
    {
        if j >= n {
            proof {
                assert(scan_digits(s@, j as int) == j as int);
            }
            break;
        }
        let c = s.get_char(j);
        let cv = c as u32;
        if cv < 48 || cv > 57 {
            proof {
                assert(s@[j as int] == c);
                assert(c as int == cv as int);
                assert(!is_dec_digit(s@[j as int]));
                assert(scan_digits(s@, j as int) == j as int);
            }
            break;
        }
        let d = (cv - 48) as u64;
        let ghost prefix = s@.subrange(i as int, j as int);
        let ghost prefix2 = s@.subrange(i as int, j as int + 1);
        proof {
            assert(is_dec_digit(s@[j as int]));
            assert(prefix2.drop_last() =~= prefix);
            assert(prefix2.last() == s@[j as int]);
            assert(dec_value(prefix2) == dec_value(prefix) * 10 + dec_val(s@[j as int]));
            assert(dec_val(s@[j as int]) == d);
        }
        let next = match val.checked_mul(10) {
            Some(x) => match x.checked_add(d) {
                Some(y) => y,
                None => u64::MAX,
            },
            None => u64::MAX,
        };
        proof {
            vstd::arithmetic::mul::lemma_mul_inequality(
                val as int,
                dec_value(prefix) as int,
                10,
            );
            assert(val * 10 <= dec_value(prefix) * 10);
            if val.checked_mul(10) is Some && (val * 10) as u64 + d <= u64::MAX {
                if val as nat == dec_value(prefix) {
                    assert(next as nat == dec_value(prefix2));
                } else {
                    assert(val == u64::MAX);
                    assert(false);
                }
            } else {
                assert(val * 10 + d > u64::MAX);
                assert(dec_value(prefix2) >= val * 10 + d);
                assert(next == u64::MAX);
                assert(next <= dec_value(prefix2));
            }
        }
        val = next;
        j += 1;
    }
    (j, val)
}

/// Reads one record starting at `i`, exactly as the specification
/// `parse_kv` describes.
fn parse_kv_at(s: &str, i: usize, n: usize) -> (r: Option<(String, String, usize)>)
    requires
        n == s@.len(),
        i <= n,
    ensures
        match r {
            Some(t) => {
                &&& parse_kv(s@, i as int) == Some((t.0@, t.1@, t.2 as int))
                &&& i < t.2 <= n
            },
            None => parse_kv(s@, i as int) is None,
        },
{
    let (j, kval) = scan_number(s, i, n);
    if j == i || j >= n {
        return None;
    }
    if s.get_char(j) != ' ' {
        return None;
    }
    let ks = j + 1;
    proof {
        if kval > (n - ks) as u64 {
            assert(dec_value(s@.subrange(i as int, j as int)) > n - ks);
        }
    }
    if kval > (n - ks) as u64 {
        return None;
    }
    let klen = kval as usize;
    proof {
        assert(klen as nat == dec_value(s@.subrange(i as int, j as int)));
    }
    let key = s.substring_char(ks, ks + klen).to_owned();
    let i2 = ks + klen;
    if i2 >= n {
        return None;
    }
    if s.get_char(i2) != ' ' {
        return None;
    }
    let (j2, vval) = scan_number(s, i2 + 1, n);
    if j2 == i2 + 1 || j2 >= n {
        return None;
    }
    if s.get_char(j2) != ' ' {
        return None;
    }
    let vs = j2 + 1;
    proof {
        if vval > (n - vs) as u64 {
            assert(dec_value(s@.subrange(i2 as int + 1, j2 as int)) > n - vs);
        }
    }
    if vval > (n - vs) as u64 {
        return None;
    }
    let vlen = vval as usize;
    proof {
        assert(vlen as nat == dec_value(s@.subrange(i2 as int + 1, j2 as int)));
    }
    let val = s.substring_char(vs, vs + vlen).to_owned();
    let i3 = vs + vlen;
    if i3 >= n {
        return None;
    }
    if s.get_char(i3) != '\n' {
        return None;
    }
    Some((key, val, i3 + 1))
}

/// Reads a whole record sequence, exactly as `parse_kvs` describes.
fn parse_kvs_str(s: &str) -> (r: Option<Vec<(String, String)>>)
    ensures
        match r {
            Some(list) => parse_kvs(s@, 0) == Some(kvs_view(list@)),
            None => parse_kvs(s@, 0) is None,
        },
{
    let n = s.unicode_len();
    let mut acc: Vec<(String, String)> = Vec::new();
    let mut i: usize = 0;
    proof {
        assert(kvs_view(acc@) =~= Seq::<(Seq<char>, Seq<char>)>::empty());
    }
    while i < n
        invariant
            n == s@.len(),
            0 <= i <= n,
            (match parse_kvs(s@, i as int) {
                Some(rest) => parse_kvs(s@, 0) == Some(kvs_view(acc@) + rest),
                None => parse_kvs(s@, 0) is None,
            }),
        decreases n - i,
    {
        match parse_kv_at(s, i, n) {
            None => {
                return None;
            },
            Some((k, v, next)) => {
                let ghost acc0 = kvs_view(acc@);
                acc.push((k, v));
                proof {
                    assert(kvs_view(acc@) =~= acc0.push((k@, v@)));
                    match parse_kvs(s@, next as int) {
                        Some(rest) => {
                            assert(parse_kvs(s@, i as int) == Some(seq![(k@, v@)] + rest));
                            assert(kvs_view(acc@) + rest =~= acc0 + (seq![(k@, v@)] + rest));
                        },
                        None => {
                            assert(parse_kvs(s@, i as int) is None);
                        },
                    }
                }
                i = next;
            },
        }
    }
    proof {
        assert(parse_kvs(s@, i as int) == Some(Seq::<(Seq<char>, Seq<char>)>::empty()));
        assert(kvs_view(acc@) + Seq::<(Seq<char>, Seq<char>)>::empty() =~= kvs_view(acc@));
    }
    Some(acc)
}

/// Applies one record to a report being read, exactly as `apply_record`
/// describes; reading a malformed context fails.
fn apply_record_exec(cur: &mut DebugStateObject, k: String, v: String) -> (ok: bool)
    ensures
        (match apply_record(old(cur)@, k@, v@) {
            Some(d2) => ok && final(cur)@ == d2,
            None => !ok,
        }),
{
    if k == String::from_str("status") {
        cur.status = v;
        true
    } else if k == String::from_str("error_code") {
        cur.error_code = v;
        true
    } else if k == String::from_str("location") {
        cur.location = Some(v);
        true
    } else if k == String::from_str("expected") {
        cur.expected = Some(v);
        true
    } else if k == String::from_str("actual") {
        cur.actual = Some(v);
        true
    } else if k == String::from_str("suggestion") {
        cur.suggestion = Some(v);
        true
    } else if k == String::from_str("context") {
        match parse_kvs_str(v.as_str()) {
            Some(list) => {
                cur.context = list;
                true
            },
            None => false,
        }
    } else {
        let ghost extra0 = kvs_view(cur.extra@);
        cur.extra.push((k, v));
        proof {
            assert(kvs_view(cur.extra@) =~= extra0.push((k@, v@)));
        }
        true
    }
}

impl DebugStateObject {
    /// Reads a report back from its textual form; yields nothing for a
    /// malformed text.
    pub fn from_text(s: &str) -> (r: Option<DebugStateObject>)
        ensures
            match r {
                Some(d) => parse_dso(s@) == Some(d@),
                None => parse_dso(s@) is None,
            },
    {
        let n = s.unicode_len();
        let mut cur = DebugStateObject::new(
            String::from_str("Unknown"),
            String::from_str("UNKNOWN"),
        );
        proof {
            assert(cur@ =~~= default_dso());
        }
        let mut i: usize = 0;
        while i < n
            invariant
                n == s@.len(),
                0 <= i <= n,
                (match parse_kvs(s@, i as int) {
                    Some(rest) => parse_dso(s@) == apply_records(cur@, rest),
                    None => parse_dso(s@) is None,
                }),
            decreases n - i,
        {
            match parse_kv_at(s, i, n) {
                None => {
                    return None;
                },
                Some((k, v, next)) => {
                    let ghost cur0 = cur@;
                    let ghost kk = k@;
                    let ghost vv = v@;
                    let ok = apply_record_exec(&mut cur, k, v);
                    proof {
                        match parse_kvs(s@, next as int) {
                            Some(rest) => {
                                assert(parse_kvs(s@, i as int) == Some(seq![(kk, vv)] + rest));
                                let whole = seq![(kk, vv)] + rest;
                                assert(whole[0] == (kk, vv));
                                assert(whole.drop_first() =~= rest);
                            },
                            None => {
                                assert(parse_kvs(s@, i as int) is None);
                            },
                        }
                    }
                    if !ok {
                        return None;
                    }
                    i = next;
                },
            }
        }
        proof {
            assert(parse_kvs(s@, i as int) == Some(Seq::<(Seq<char>, Seq<char>)>::empty()));
        }
        Some(cur)
    }
}

} // verus!
