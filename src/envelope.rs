use vstd::prelude::*;

use crate::config::LoggerConfig;
use crate::level::{severity_name, Level};

verus! {

#[verifier::external_type_specification]
#[verifier::external_body]
pub struct ExValue(serde_json::Value);

/// What the message `s` holds when it parses as a JSON object: its members,
/// in the parser's order. `None` when it is not valid JSON or not an object.
pub uninterp spec fn message_object(s: Seq<char>) -> Option<Seq<(Seq<char>, serde_json::Value)>>;

/// Relies on serde_json::from_str, reading the message as one JSON document,
/// and on serde_json::Map's `into_iter` for an object's members. Empty input
/// is rejected by the parser.
#[verifier::external_body]
fn parse_object(s: &str) -> (r: Option<Vec<(String, serde_json::Value)>>)
    ensures
        r is None <==> message_object(s@) is None,
        s@.len() == 0 ==> r is None,
        r is Some ==> member_views(r->0@) == message_object(s@)->0,
{
    match serde_json::from_str::<serde_json::Value>(s) {
        Ok(serde_json::Value::Object(m)) => Some(m.into_iter().collect()),
        Ok(_) => None,
        Err(_) => None,
    }
}

/// Members with their keys viewed as character sequences.
pub open spec fn member_views(m: Seq<(String, serde_json::Value)>) -> Seq<
    (Seq<char>, serde_json::Value),
> {
    m.map_values(|p: (String, serde_json::Value)| (p.0@, p.1))
}

/// Value of one envelope field: a plain string or an embedded JSON value.
pub enum FieldValue {
    Text(String),
    Json(serde_json::Value),
}

/// Mathematical view of a field value.
pub enum FieldView {
    Text(Seq<char>),
    Json(serde_json::Value),
}

impl View for FieldValue {
    type V = FieldView;

    open spec fn view(&self) -> FieldView {
        match self {
            FieldValue::Text(s) => FieldView::Text(s@),
            FieldValue::Json(v) => FieldView::Json(*v),
        }
    }
}

/// One named field of an envelope.
pub type Field = (String, FieldValue);

/// An envelope is viewed as its ordered list of named fields.
pub type EnvelopeView = Seq<(Seq<char>, FieldView)>;

/// The JSON document shipped for one record: an ordered list of named fields.
pub struct Envelope {
    pub fields: Vec<Field>,
}

impl View for Envelope {
    type V = EnvelopeView;

    open spec fn view(&self) -> EnvelopeView {
        self.fields@.map_values(|f: Field| (f.0@, f.1@))
    }
}

/// No two fields share a name.
pub open spec fn unique_names(e: EnvelopeView) -> bool {
    forall|i: int, j: int|
        0 <= i < e.len() && 0 <= j < e.len() && i != j ==> #[trigger] e[i].0 != #[trigger] e[j].0
}

/// The envelope has a field named `k`.
pub open spec fn has_name(e: EnvelopeView, k: Seq<char>) -> bool {
    exists|i: int| 0 <= i < e.len() && #[trigger] e[i].0 == k
}

/// Position of the field named `k`, where there is one.
pub open spec fn name_index(e: EnvelopeView, k: Seq<char>) -> int {
    choose|i: int| 0 <= i < e.len() && #[trigger] e[i].0 == k
}

/// Insert-or-overwrite: a field of the same name is replaced in place,
/// otherwise the field is appended.
pub open spec fn set_field(e: EnvelopeView, k: Seq<char>, v: FieldView) -> EnvelopeView {
    if has_name(e, k) {
        e.update(name_index(e, k), (k, v))
    } else {
        e.push((k, v))
    }
}

/// Sets each member of `m` in turn, so that later members win.
pub open spec fn merge_members(e: EnvelopeView, m: Seq<(Seq<char>, serde_json::Value)>) -> EnvelopeView
    decreases m.len(),
{
    if m.len() == 0 {
        e
    } else {
        set_field(merge_members(e, m.drop_last()), m.last().0, FieldView::Json(m.last().1))
    }
}

/// The fields every envelope starts from.
pub open spec fn base_fields(id: LoggerConfig, level: Level) -> EnvelopeView {
    seq![
        ("service"@, FieldView::Text(id.service@)),
        ("environment"@, FieldView::Text(id.environment@)),
        ("severity"@, FieldView::Text(severity_name(level))),
    ]
}

/// Envelope of a plain record: a message that is a JSON object is merged
/// into the base fields, any other message is carried verbatim under `log`.
pub open spec fn record_fields(id: LoggerConfig, level: Level, msg: Seq<char>) -> EnvelopeView {
    parsed_record_fields(id, level, msg, message_object(msg))
}

/// Envelope of a plain record once its message has been read: `parsed` holds
/// the members when the message is a JSON object.
pub open spec fn parsed_record_fields(
    id: LoggerConfig,
    level: Level,
    msg: Seq<char>,
    parsed: Option<Seq<(Seq<char>, serde_json::Value)>>,
) -> EnvelopeView {
    match parsed {
        Some(m) => merge_members(base_fields(id, level), m),
        None => base_fields(id, level).push(("log"@, FieldView::Text(msg))),
    }
}

/// Envelope of an explicit structured event.
pub open spec fn event_fields(
    id: LoggerConfig,
    level: Level,
    msg: Seq<char>,
    log_type: Seq<char>,
    data: serde_json::Value,
    tags: serde_json::Value,
) -> EnvelopeView {
    base_fields(id, level) + seq![
        ("type"@, FieldView::Text(log_type)),
        ("log"@, FieldView::Text(msg)),
        ("data"@, FieldView::Json(data)),
        ("tags"@, FieldView::Json(tags)),
    ]
}

proof fn lemma_base_unique(id: LoggerConfig, level: Level)
    ensures
        unique_names(base_fields(id, level)),
        !has_name(base_fields(id, level), "log"@),
{
    reveal_strlit("service");
    reveal_strlit("environment");
    reveal_strlit("severity");
    reveal_strlit("log");
    let b = base_fields(id, level);
    assert(b[0].0[1] != b[1].0[1]);
    assert(b[0].0.len() != b[2].0.len() || b[0].0[2] != b[2].0[2]);
    assert(b[1].0[1] != b[2].0[1]);
    assert(b[0].0.len() != "log"@.len());
    assert(b[1].0.len() != "log"@.len());
    assert(b[2].0.len() != "log"@.len());
}

impl Envelope {
    /// Well-formed envelopes never hold two fields of the same name.
    pub open spec fn wf(&self) -> bool {
        unique_names(self@)
    }

    fn base(id: &LoggerConfig, level: Level) -> (r: Envelope)
        ensures
            r@ == base_fields(*id, level),
            r.wf(),
    {
        let mut fields: Vec<Field> = Vec::new();
        fields.push((String::from_str("service"), FieldValue::Text(id.service.clone())));
        fields.push((String::from_str("environment"), FieldValue::Text(id.environment.clone())));
        fields.push((String::from_str("severity"), FieldValue::Text(level.severity())));
        let r = Envelope { fields };
        assert(r@ =~= base_fields(*id, level));
        proof {
            lemma_base_unique(*id, level);
        }
        r
    }

    /// Sets field `k` to `v`, replacing a field of that name in place or
    /// appending a new one.
    pub fn set(&mut self, k: String, v: FieldValue)
        requires
            old(self).wf(),
        ensures
            final(self).wf(),
            final(self)@ == set_field(old(self)@, k@, v@),
    {
        let ghost e = self@;
        let n = self.fields.len();
        let mut i: usize = 0;
        let mut found = false;
        while i < n && !found
            invariant
                n == self.fields.len(),
                self@ == e,
                i <= n,
                found ==> i < n && e[i as int].0 == k@,
                forall|j: int| 0 <= j < i && !(found && j == i) ==> #[trigger] e[j].0 != k@,
            decreases n - i + (if found { 0int } else { 1int }),
        {
            if self.fields[i].0 == k {
                found = true;
            } else {
                i = i + 1;
            }
        }
        if found {
            proof {
                assert(has_name(e, k@));
                assert(name_index(e, k@) == i);
            }
            self.fields.set(i, (k, v));
        } else {
            assert(!has_name(e, k@));
            self.fields.push((k, v));
        }
        assert(self@ =~= set_field(e, k@, v@));
    }

    /// Envelope of a record at `level` whose message is `msg`.
    pub fn from_record(id: &LoggerConfig, level: Level, msg: &str) -> (r: Envelope)
        ensures
            r.wf(),
            r@ == record_fields(*id, level, msg@),
            msg@.len() == 0 ==> r@ == base_fields(*id, level).push(("log"@, FieldView::Text(msg@))),
    {
        let parsed = parse_object(msg);
        Envelope::from_parsed(id, level, msg, parsed)
    }

    /// Envelope of a record whose message `msg` has been read as `parsed`:
    /// the members of a JSON object, or `None` for any other message.
    pub fn from_parsed(
        id: &LoggerConfig,
        level: Level,
        msg: &str,
        parsed: Option<Vec<(String, serde_json::Value)>>,
    ) -> (r: Envelope)
        ensures
            r.wf(),
            r@ == parsed_record_fields(
                *id,
                level,
                msg@,
                match parsed {
                    Some(m) => Some(member_views(m@)),
                    None => None,
                },
            ),
    {
        let mut r = Envelope::base(id, level);
        match parsed {
            Some(members) => {
                let ghost orig = members@;
                let ghost mv = member_views(orig);
                let mut rest = members;
                let ghost mut done: int = 0;
                while rest.len() > 0
                    invariant
                        r.wf(),
                        0 <= done <= orig.len(),
                        mv == member_views(orig),
                        rest@ == orig.subrange(done, orig.len() as int),
                        r@ == merge_members(base_fields(*id, level), mv.take(done)),
                    decreases rest.len(),
                {
                    let (k, v) = rest.remove(0);
                    proof {
                        assert(mv.take(done + 1).drop_last() =~= mv.take(done));
                    }
                    r.set(k, FieldValue::Json(v));
                    proof {
                        done = done + 1;
                    }
                }
                assert(mv.take(orig.len() as int) =~= mv);
                r
            },
            None => {
                proof {
                    lemma_base_unique(*id, level);
                }
                r.fields.push((String::from_str("log"), FieldValue::Text(String::from_str(msg))));
                assert(r@ =~= base_fields(*id, level).push(("log"@, FieldView::Text(msg@))));
                r
            },
        }
    }
}

impl Envelope {
    /// Envelope of an explicit structured event; `data` and `tags` are
    /// embedded as they are.
    pub fn from_event(
        id: &LoggerConfig,
        level: Level,
        msg: &str,
        log_type: &str,
        data: serde_json::Value,
        tags: serde_json::Value,
    ) -> (r: Envelope)
        ensures
            r@ == event_fields(*id, level, msg@, log_type@, data, tags),
    {
        let mut r = Envelope::base(id, level);
        r.fields.push((String::from_str("type"), FieldValue::Text(String::from_str(log_type))));
        r.fields.push((String::from_str("log"), FieldValue::Text(String::from_str(msg))));
        r.fields.push((String::from_str("data"), FieldValue::Json(data)));
        r.fields.push((String::from_str("tags"), FieldValue::Json(tags)));
        assert(r@ =~= event_fields(*id, level, msg@, log_type@, data, tags));
        r
    }
}

/// Message that the structured-log helper hands to the logging facade: the
/// text, its type, and the caller's data and tags.
pub open spec fn message_fields(
    msg: Seq<char>,
    log_type: Seq<char>,
    data: serde_json::Value,
    tags: serde_json::Value,
) -> EnvelopeView {
    seq![
        ("log"@, FieldView::Text(msg)),
        ("type"@, FieldView::Text(log_type)),
        ("data"@, FieldView::Json(data)),
        ("tags"@, FieldView::Json(tags)),
    ]
}

impl Envelope {
    /// The JSON object a structured-log call passes as its message, which a
    /// sink then merges into its own envelope.
    pub fn structured_message(
        msg: &str,
        log_type: &str,
        data: serde_json::Value,
        tags: serde_json::Value,
    ) -> (r: Envelope)
        ensures
            r.wf(),
            r@ == message_fields(msg@, log_type@, data, tags),
    {
        let mut fields: Vec<Field> = Vec::new();
        fields.push((String::from_str("log"), FieldValue::Text(String::from_str(msg))));
        fields.push((String::from_str("type"), FieldValue::Text(String::from_str(log_type))));
        fields.push((String::from_str("data"), FieldValue::Json(data)));
        fields.push((String::from_str("tags"), FieldValue::Json(tags)));
        let r = Envelope { fields };
        assert(r@ =~= message_fields(msg@, log_type@, data, tags));
        proof {
            reveal_strlit("type");
            reveal_strlit("log");
            reveal_strlit("data");
            reveal_strlit("tags");
            let e = r@;
            assert forall|i: int, j: int|
                0 <= i < e.len() && 0 <= j < e.len() && i != j implies #[trigger] e[i].0
                != #[trigger] e[j].0 by {
                assert(e[i].0.len() != e[j].0.len() || e[i].0[0] != e[j].0[0] || e[i].0[1] != e[j].0[1]);
            }
        }
        r
    }
}

proof fn lemma_set_field_keeps(e: EnvelopeView, k: Seq<char>, v: FieldView, i: int)
    requires
        0 <= i < e.len(),
        e[i].0 != k,
    ensures
        set_field(e, k, v)[i] == e[i],
{
}

proof fn lemma_merge_members(e: EnvelopeView, m: Seq<(Seq<char>, serde_json::Value)>, j: int)
    requires
        0 <= j < m.len(),
        forall|l: int| j < l < m.len() ==> #[trigger] m[l].0 != m[j].0,
    ensures
        exists|i: int|
            0 <= i < merge_members(e, m).len() && merge_members(e, m)[i] == (
                m[j].0,
                FieldView::Json(m[j].1),
            ),
    decreases m.len(),
{
    let last = m.last();
    let prev = merge_members(e, m.drop_last());
    let cur = merge_members(e, m);
    assert(cur == set_field(prev, last.0, FieldView::Json(last.1)));
    if j == m.len() - 1 {
        lemma_set_field_keeps_len(prev, last.0, FieldView::Json(last.1));
        assert(last == m[j]);
    } else {
        assert(m[m.len() - 1].0 != m[j].0);
        assert(m.drop_last()[j] == m[j]);
        assert forall|l: int| j < l < m.drop_last().len() implies #[trigger] m.drop_last()[l].0 != m.drop_last()[j].0 by {
            assert(m.drop_last()[l] == m[l]);
        }
        lemma_merge_members(e, m.drop_last(), j);
        let i = choose|i: int|
            0 <= i < prev.len() && prev[i] == (m[j].0, FieldView::Json(m[j].1));
        lemma_set_field_keeps(prev, last.0, FieldView::Json(last.1), i);
        lemma_set_field_keeps_len(prev, last.0, FieldView::Json(last.1));
        assert(cur[i] == (m[j].0, FieldView::Json(m[j].1)));
    }
}

proof fn lemma_set_field_keeps_len(e: EnvelopeView, k: Seq<char>, v: FieldView)
    ensures
        set_field(e, k, v).len() >= e.len(),
        exists|j: int| 0 <= j < set_field(e, k, v).len() && set_field(e, k, v)[j] == (k, v),
{
    if has_name(e, k) {
        let c = name_index(e, k);
        assert(set_field(e, k, v)[c] == (k, v));
    } else {
        assert(set_field(e, k, v)[e.len() as int] == (k, v));
    }
}

/// A record whose message is a JSON object ships every member of it: each
/// key is present, and holds the message's value (the last one, should a key
/// repeat), also where it collides with `service`, `environment` or
/// `severity`.
pub proof fn lemma_object_members_shipped(id: LoggerConfig, level: Level, msg: Seq<char>)
    requires
        message_object(msg) is Some,
    ensures
        forall|j: int|
            0 <= j < message_object(msg)->0.len() ==> has_name(
                record_fields(id, level, msg),
                (#[trigger] message_object(msg)->0[j]).0,
            ),
        forall|j: int|
            0 <= j < message_object(msg)->0.len() && (forall|l: int|
                j < l < message_object(msg)->0.len() ==> message_object(msg)->0[l].0
                    != message_object(msg)->0[j].0) ==> exists|i: int|
                0 <= i < record_fields(id, level, msg).len() && record_fields(id, level, msg)[i]
                    == (
                    (#[trigger] message_object(msg)->0[j]).0,
                    FieldView::Json(message_object(msg)->0[j].1),
                ),
{
    let m = message_object(msg)->0;
    let e = record_fields(id, level, msg);
    assert forall|j: int|
        0 <= j < m.len() && (forall|l: int| j < l < m.len() ==> m[l].0 != m[j].0) implies exists|
        i: int,
    | 0 <= i < e.len() && e[i] == (#[trigger] m[j].0, FieldView::Json(m[j].1)) by {
        lemma_merge_members(base_fields(id, level), m, j);
    }
    assert forall|j: int| 0 <= j < m.len() implies has_name(e, (#[trigger] m[j]).0) by {
        lemma_last_occurrence(m, j);
        let k = choose|k: int| j <= k < m.len() && m[k].0 == m[j].0 && (forall|l: int|
            k < l < m.len() ==> m[l].0 != m[k].0);
        lemma_merge_members(base_fields(id, level), m, k);
        let i = choose|i: int| 0 <= i < e.len() && e[i] == (m[k].0, FieldView::Json(m[k].1));
        assert(e[i].0 == m[j].0);
    }
}

proof fn lemma_last_occurrence(m: Seq<(Seq<char>, serde_json::Value)>, j: int)
    requires
        0 <= j < m.len(),
    ensures
        exists|k: int|
            j <= k < m.len() && m[k].0 == m[j].0 && (forall|l: int|
                k < l < m.len() ==> m[l].0 != m[k].0),
    decreases m.len() - j,
{
    if exists|l: int| j < l < m.len() && m[l].0 == m[j].0 {
        let l = choose|l: int| j < l < m.len() && m[l].0 == m[j].0;
        lemma_last_occurrence(m, l);
    } else {
        assert(forall|l: int| j < l < m.len() ==> m[l].0 != m[j].0);
        assert(j <= j < m.len() && m[j].0 == m[j].0);
    }
}

/// A record whose message is not a JSON object ships exactly the base fields
/// and the message verbatim under `log`, and nothing else.
pub proof fn lemma_plain_message_shipped(id: LoggerConfig, level: Level, msg: Seq<char>)
    requires
        message_object(msg) is None,
    ensures
        record_fields(id, level, msg) == base_fields(id, level).push(
            ("log"@, FieldView::Text(msg)),
        ),
        record_fields(id, level, msg).len() == 4,
        record_fields(id, level, msg)[3] == ("log"@, FieldView::Text(msg)),
{
}

/// A structured event ships exactly its seven fields, with `data` and `tags`
/// embedded unchanged whatever keys they hold.
pub proof fn lemma_event_shipped(
    id: LoggerConfig,
    level: Level,
    msg: Seq<char>,
    log_type: Seq<char>,
    data: serde_json::Value,
    tags: serde_json::Value,
)
    ensures
        event_fields(id, level, msg, log_type, data, tags) == seq![
            ("service"@, FieldView::Text(id.service@)),
            ("environment"@, FieldView::Text(id.environment@)),
            ("severity"@, FieldView::Text(severity_name(level))),
            ("type"@, FieldView::Text(log_type)),
            ("log"@, FieldView::Text(msg)),
            ("data"@, FieldView::Json(data)),
            ("tags"@, FieldView::Json(tags)),
        ],
        unique_names(event_fields(id, level, msg, log_type, data, tags)),
{
    assert(event_fields(id, level, msg, log_type, data, tags) =~= seq![
        ("service"@, FieldView::Text(id.service@)),
        ("environment"@, FieldView::Text(id.environment@)),
        ("severity"@, FieldView::Text(severity_name(level))),
        ("type"@, FieldView::Text(log_type)),
        ("log"@, FieldView::Text(msg)),
        ("data"@, FieldView::Json(data)),
        ("tags"@, FieldView::Json(tags)),
    ]);
    reveal_strlit("service");
    reveal_strlit("environment");
    reveal_strlit("severity");
    reveal_strlit("type");
    reveal_strlit("log");
    reveal_strlit("data");
    reveal_strlit("tags");
    let e = event_fields(id, level, msg, log_type, data, tags);
    assert forall|i: int, j: int| 0 <= i < e.len() && 0 <= j < e.len() && i != j implies #[trigger] e[i].0 != #[trigger] e[j].0 by {
        assert(e[i].0.len() != e[j].0.len() || e[i].0[0] != e[j].0[0] || e[i].0[1] != e[j].0[1] || e[i].0[2] != e[j].0[2]);
    }
}

} // verus!
