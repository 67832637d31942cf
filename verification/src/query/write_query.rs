//! Write-query builder: a measurement, tag and field pairs and a
//! timestamp, rendered into one line of the line-protocol text format.

use vstd::prelude::*;
use vstd::string::*;

use crate::error::InfluxDbError;
use crate::query::{spec_timestamp_text, QueryType, Timestamp, ValidQuery};
use crate::text::{chars_to_string, i64_to_dec_chars, lemma_seq_join_push, seq_join, spec_dec_int,
    str_to_chars, u64_to_dec_chars};

verus! {

/// A field value, with its distinct line-protocol encoding: text is
/// double-quoted and escaped, integers are suffixed with `i`, floats
/// render as their decimal text, booleans as `true` or `false`.
pub enum InfluxDbType {
    Boolean(bool),
    SignedInteger(i64),
    /// A floating-point value, carried as the decimal text it renders to.
    Float(String),
    Text(String),
}

/// How one character of a tag key or tag value is escaped: commas,
/// spaces and equals signs get a leading backslash.
pub open spec fn escape_tag_char(c: char) -> Seq<char> {
    if c == ',' || c == ' ' || c == '=' {
        seq!['\\', c]
    } else {
        seq![c]
    }
}

/// A tag key or tag value with every special character escaped.
pub open spec fn escape_tag(s: Seq<char>) -> Seq<char>
    decreases s.len(),
{
    if s.len() == 0 {
        Seq::empty()
    } else {
        escape_tag_char(s[0]) + escape_tag(s.drop_first())
    }
}

/// How one character of a text field value is escaped: double quotes
/// and backslashes get a leading backslash.
pub open spec fn escape_text_char(c: char) -> Seq<char> {
    if c == '"' || c == '\\' {
        seq!['\\', c]
    } else {
        seq![c]
    }
}

/// A text field value with every special character escaped.
pub open spec fn escape_text(s: Seq<char>) -> Seq<char>
    decreases s.len(),
{
    if s.len() == 0 {
        Seq::empty()
    } else {
        escape_text_char(s[0]) + escape_text(s.drop_first())
    }
}

/// Escaping one more character appends its escape to the escaped text.
proof fn lemma_escape_tag_push(s: Seq<char>, c: char)
    ensures
        escape_tag(s.push(c)) == escape_tag(s) + escape_tag_char(c),
    decreases s.len(),
{
    if s.len() == 0 {
        assert(s.push(c).drop_first() =~= Seq::<char>::empty());
        assert(s.push(c)[0] == c);
        assert(escape_tag(Seq::<char>::empty()) == Seq::<char>::empty());
        assert(escape_tag(s.push(c)) =~= escape_tag_char(c));
        assert(escape_tag(s) + escape_tag_char(c) =~= escape_tag_char(c));
    } else {
        assert(s.push(c).drop_first() =~= s.drop_first().push(c));
        lemma_escape_tag_push(s.drop_first(), c);
        assert(escape_tag(s.push(c)) =~= escape_tag(s) + escape_tag_char(c));
    }
}

/// Escaping one more character appends its escape to the escaped text.
proof fn lemma_escape_text_push(s: Seq<char>, c: char)
    ensures
        escape_text(s.push(c)) == escape_text(s) + escape_text_char(c),
    decreases s.len(),
{
    if s.len() == 0 {
        assert(s.push(c).drop_first() =~= Seq::<char>::empty());
        assert(s.push(c)[0] == c);
        assert(escape_text(Seq::<char>::empty()) == Seq::<char>::empty());
        assert(escape_text(s.push(c)) =~= escape_text_char(c));
        assert(escape_text(s) + escape_text_char(c) =~= escape_text_char(c));
    } else {
        assert(s.push(c).drop_first() =~= s.drop_first().push(c));
        lemma_escape_text_push(s.drop_first(), c);
        assert(escape_text(s.push(c)) =~= escape_text(s) + escape_text_char(c));
    }
}

/// Appends the characters of `s` to `out`.
fn push_str_chars(out: &mut Vec<char>, s: &str)
    ensures
        final(out)@ == old(out)@ + s@,
{
    let mut chars = str_to_chars(s);
    out.append(&mut chars);
}

/// Appends `s` to `out`, tag-escaped.
fn push_escaped_tag(out: &mut Vec<char>, s: &str)
    ensures
        final(out)@ == old(out)@ + escape_tag(s@),
{
    let n = s.unicode_len();
    let mut i: usize = 0;
    while i < n
        invariant
            n == s@.len(),
            i <= n,
            out@ == old(out)@ + escape_tag(s@.take(i as int)),
        decreases n - i,
    {
        let c = s.get_char(i);
        if c == ',' || c == ' ' || c == '=' {
            out.push('\\');
        }
        out.push(c);
        proof {
            lemma_escape_tag_push(s@.take(i as int), s@[i as int]);
            assert(s@.take(i + 1 as int) =~= s@.take(i as int).push(s@[i as int]));
            assert(out@ =~= old(out)@ + escape_tag(s@.take(i + 1 as int)));
        }
        i = i + 1;
    }
    proof {
        assert(s@.take(n as int) =~= s@);
    }
}

/// Appends `s` to `out`, text-escaped.
fn push_escaped_text(out: &mut Vec<char>, s: &str)
    ensures
        final(out)@ == old(out)@ + escape_text(s@),
{
    let n = s.unicode_len();
    let mut i: usize = 0;
    while i < n
        invariant
            n == s@.len(),
            i <= n,
            out@ == old(out)@ + escape_text(s@.take(i as int)),
        decreases n - i,
    {
        let c = s.get_char(i);
        if c == '"' || c == '\\' {
            out.push('\\');
        }
        out.push(c);
        proof {
            lemma_escape_text_push(s@.take(i as int), s@[i as int]);
            assert(s@.take(i + 1 as int) =~= s@.take(i as int).push(s@[i as int]));
            assert(out@ =~= old(out)@ + escape_text(s@.take(i + 1 as int)));
        }
        i = i + 1;
    }
    proof {
        assert(s@.take(n as int) =~= s@);
    }
}

/// How one field value renders.
pub open spec fn spec_field_value_text(v: InfluxDbType) -> Seq<char> {
    match v {
        InfluxDbType::Boolean(b) => if b {
            "true"@
        } else {
            "false"@
        },
        InfluxDbType::SignedInteger(i) => spec_dec_int(i as int) + seq!['i'],
        InfluxDbType::Float(d) => d@,
        InfluxDbType::Text(t) => seq!['"'] + escape_text(t@) + seq!['"'],
    }
}

/// How one `key=value` field pair renders.
pub open spec fn spec_render_field(f: (String, InfluxDbType)) -> Seq<char> {
    f.0@ + seq!['='] + spec_field_value_text(f.1)
}

/// How the field list renders: the pairs joined by commas.
pub open spec fn spec_render_fields(fields: Seq<(String, InfluxDbType)>) -> Seq<char> {
    seq_join(fields.map_values(|f: (String, InfluxDbType)| spec_render_field(f)), seq![','])
}

/// How the tag list renders: a comma-prefixed `key=value` pair for each
/// tag, keys and values escaped.
pub open spec fn spec_render_tags(tags: Seq<(String, String)>) -> Seq<char>
    decreases tags.len(),
{
    if tags.len() == 0 {
        Seq::empty()
    } else {
        seq![','] + escape_tag(tags[0].0@) + seq!['='] + escape_tag(tags[0].1@) + spec_render_tags(
            tags.drop_first(),
        )
    }
}

/// Rendering one more tag appends its comma-prefixed pair.
proof fn lemma_render_tags_push(tags: Seq<(String, String)>, t: (String, String))
    ensures
        spec_render_tags(tags.push(t)) == spec_render_tags(tags) + (seq![','] + escape_tag(t.0@)
            + seq!['='] + escape_tag(t.1@)),
    decreases tags.len(),
{
    if tags.len() == 0 {
        assert(tags.push(t).drop_first() =~= Seq::<(String, String)>::empty());
        assert(tags.push(t)[0] == t);
        assert(spec_render_tags(Seq::<(String, String)>::empty()) == Seq::<char>::empty());
        assert(spec_render_tags(tags.push(t)) =~= spec_render_tags(tags) + (seq![','] + escape_tag(
            t.0@,
        ) + seq!['='] + escape_tag(t.1@)));
    } else {
        assert(tags.push(t).drop_first() =~= tags.drop_first().push(t));
        lemma_render_tags_push(tags.drop_first(), t);
        assert(spec_render_tags(tags.push(t)) =~= spec_render_tags(tags) + (seq![','] + escape_tag(
            t.0@,
        ) + seq!['='] + escape_tag(t.1@)));
    }
}

/// A write query: a measurement name, tag pairs, field pairs and a
/// timestamp. Tags are optional; fields are mandatory at build time.
pub struct InfluxDbWriteQuery {
    pub measurement: String,
    pub tags: Vec<(String, String)>,
    pub fields: Vec<(String, InfluxDbType)>,
    pub timestamp: Timestamp,
}

/// How a whole write query renders: the measurement, the tag list, a
/// space, the field list, and — unless the timestamp is "now" — a space
/// and the rendered timestamp.
pub open spec fn spec_render_write(q: &InfluxDbWriteQuery) -> Seq<char> {
    q.measurement@ + spec_render_tags(q.tags@) + seq![' '] + spec_render_fields(q.fields@) + (
    if q.timestamp is NOW {
        Seq::<char>::empty()
    } else {
        seq![' '] + spec_timestamp_text(q.timestamp)
    })
}

/// The request parameter naming the unit a write timestamp is counted
/// in; empty for "now".
pub open spec fn spec_precision(ts: Timestamp) -> Seq<char> {
    match ts {
        Timestamp::NOW => Seq::empty(),
        Timestamp::NANOSECONDS(_) => "ns"@,
        Timestamp::MICROSECONDS(_) => "u"@,
        Timestamp::MILLISECONDS(_) => "ms"@,
        Timestamp::SECONDS(_) => "s"@,
        Timestamp::MINUTES(_) => "m"@,
        Timestamp::HOURS(_) => "h"@,
    }
}

/// Appends one rendered field value to `out`.
fn push_field_value(out: &mut Vec<char>, v: &InfluxDbType)
    ensures
        final(out)@ == old(out)@ + spec_field_value_text(*v),
{
    match v {
        InfluxDbType::Boolean(b) => {
            if *b {
                push_str_chars(out, "true");
            } else {
                push_str_chars(out, "false");
            }
        },
        InfluxDbType::SignedInteger(i) => {
            let mut digits = i64_to_dec_chars(*i);
            out.append(&mut digits);
            out.push('i');
            proof {
                assert(out@ =~= old(out)@ + spec_field_value_text(*v));
            }
        },
        InfluxDbType::Float(d) => {
            push_str_chars(out, d.as_str());
        },
        InfluxDbType::Text(t) => {
            out.push('"');
            push_escaped_text(out, t.as_str());
            out.push('"');
            proof {
                assert(out@ =~= old(out)@ + spec_field_value_text(*v));
            }
        },
    }
}

impl InfluxDbWriteQuery {
    /// Creates a write query for the given timestamp and measurement,
    /// with no tags and no fields yet.
    pub fn new(timestamp: Timestamp, measurement: &str) -> (r: Self)
        ensures
            r.measurement@ == measurement@,
            r.timestamp == timestamp,
            r.tags@ == Seq::<(String, String)>::empty(),
            r.fields@ == Seq::<(String, InfluxDbType)>::empty(),
    {
        InfluxDbWriteQuery {
            measurement: measurement.to_owned(),
            tags: Vec::new(),
            fields: Vec::new(),
            timestamp,
        }
    }

    /// Adds one field pair at the end of the field list.
    pub fn add_field(self, field: &str, value: InfluxDbType) -> (r: Self)
        ensures
            r.measurement@ == self.measurement@,
            r.timestamp == self.timestamp,
            r.tags@ == self.tags@,
            r.fields@.len() == self.fields@.len() + 1,
            r.fields@.take(self.fields@.len() as int) == self.fields@,
            r.fields@.last().0@ == field@,
            r.fields@.last().1 == value,
    {
        let mut fields = self.fields;
        fields.push((field.to_owned(), value));
        proof {
            assert(fields@.take(fields@.len() - 1) =~= self.fields@);
        }
        InfluxDbWriteQuery { fields, ..self }
    }

    /// Adds one tag pair at the end of the tag list.
    pub fn add_tag(self, tag: &str, value: &str) -> (r: Self)
        ensures
            r.measurement@ == self.measurement@,
            r.timestamp == self.timestamp,
            r.fields@ == self.fields@,
            r.tags@.len() == self.tags@.len() + 1,
            r.tags@.take(self.tags@.len() as int) == self.tags@,
            r.tags@.last().0@ == tag@,
            r.tags@.last().1@ == value@,
    {
        let mut tags = self.tags;
        tags.push((tag.to_owned(), value.to_owned()));
        proof {
            assert(tags@.take(tags@.len() - 1) =~= self.tags@);
        }
        InfluxDbWriteQuery { tags, ..self }
    }

    /// The precision request parameter matching the timestamp's unit.
    pub fn get_precision(&self) -> (r: String)
        ensures
            r@ == spec_precision(self.timestamp),
    {
        match self.timestamp {
            Timestamp::NOW => String::new(),
            Timestamp::NANOSECONDS(_) => String::from_str("ns"),
            Timestamp::MICROSECONDS(_) => String::from_str("u"),
            Timestamp::MILLISECONDS(_) => String::from_str("ms"),
            Timestamp::SECONDS(_) => String::from_str("s"),
            Timestamp::MINUTES(_) => String::from_str("m"),
            Timestamp::HOURS(_) => String::from_str("h"),
        }
    }

    /// Renders the query into one line-protocol line. Fails exactly when
    /// no field was added; tags remain optional.
    pub fn build(&self) -> (r: Result<ValidQuery, InfluxDbError>)
        ensures
            self.fields@.len() > 0 ==> (r matches Ok(v) && v@ == spec_render_write(self)),
            self.fields@.len() == 0 ==> (r matches Err(e) && (e matches
            InfluxDbError::InvalidQueryError { error } && error@ == "fields cannot be empty"@)),
    {
        if self.fields.len() == 0 {
            return Err(
                InfluxDbError::InvalidQueryError { error: "fields cannot be empty".to_owned() },
            );
        }
        let mut out: Vec<char> = Vec::new();
        push_str_chars(&mut out, self.measurement.as_str());

        let mut j: usize = 0;
        while j < self.tags.len()
            invariant
                j <= self.tags@.len(),
                out@ == self.measurement@ + spec_render_tags(self.tags@.take(j as int)),
            decreases self.tags@.len() - j,
        {
            out.push(',');
            push_escaped_tag(&mut out, self.tags[j].0.as_str());
            out.push('=');
            push_escaped_tag(&mut out, self.tags[j].1.as_str());
            proof {
                lemma_render_tags_push(self.tags@.take(j as int), self.tags@[j as int]);
                assert(self.tags@.take(j + 1 as int) =~= self.tags@.take(j as int).push(
                    self.tags@[j as int],
                ));
                assert(out@ =~= self.measurement@ + spec_render_tags(self.tags@.take(j + 1 as int)));
            }
            j = j + 1;
        }
        proof {
            assert(self.tags@.take(self.tags@.len() as int) =~= self.tags@);
        }

        out.push(' ');
        let ghost head = self.measurement@ + spec_render_tags(self.tags@) + seq![' '];
        proof {
            assert(out@ =~= head);
        }

        let mut k: usize = 0;
        while k < self.fields.len()
            invariant
                k <= self.fields@.len(),
                head == self.measurement@ + spec_render_tags(self.tags@) + seq![' '],
                out@ == head + spec_render_fields(self.fields@.take(k as int)),
            decreases self.fields@.len() - k,
        {
            if k > 0 {
                out.push(',');
            }
            push_str_chars(&mut out, self.fields[k].0.as_str());
            out.push('=');
            push_field_value(&mut out, &self.fields[k].1);
            proof {
                let rendered = self.fields@.take(k as int).map_values(
                    |f: (String, InfluxDbType)| spec_render_field(f),
                );
                lemma_seq_join_push(rendered, seq![','], spec_render_field(self.fields@[k as int]));
                assert(self.fields@.take(k + 1 as int).map_values(
                    |f: (String, InfluxDbType)| spec_render_field(f),
                ) =~= rendered.push(spec_render_field(self.fields@[k as int])));
                assert(out@ =~= head + spec_render_fields(self.fields@.take(k + 1 as int)));
            }
            k = k + 1;
        }
        proof {
            assert(self.fields@.take(self.fields@.len() as int) =~= self.fields@);
        }

        match self.timestamp {
            Timestamp::NOW => {},
            Timestamp::NANOSECONDS(t) => push_timestamp(&mut out, t),
            Timestamp::MICROSECONDS(t) => push_timestamp(&mut out, t),
            Timestamp::MILLISECONDS(t) => push_timestamp(&mut out, t),
            Timestamp::SECONDS(t) => push_timestamp(&mut out, t),
            Timestamp::MINUTES(t) => push_timestamp(&mut out, t),
            Timestamp::HOURS(t) => push_timestamp(&mut out, t),
        }
        proof {
            assert(out@ =~= spec_render_write(self));
        }
        Ok(ValidQuery::from(chars_to_string(&out).as_str()))
    }

    /// This is a write query.
    pub fn get_type(&self) -> (r: QueryType)
        ensures
            r == QueryType::WriteQuery,
    {
        QueryType::WriteQuery
    }
}

/// Appends a space and the decimal timestamp value to `out`.
fn push_timestamp(out: &mut Vec<char>, t: usize)
    ensures
        final(out)@ == old(out)@ + seq![' '] + crate::text::spec_dec_nat(t as nat),
{
    out.push(' ');
    let mut digits = u64_to_dec_chars(t as u64);
    out.append(&mut digits);
    proof {
        assert(out@ =~= old(out)@ + seq![' '] + crate::text::spec_dec_nat(t as nat));
    }
}

} // verus!
