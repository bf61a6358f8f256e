//! Status records shown in the bar, and their JSON wire form.
use vstd::prelude::*;
use vstd::string::StringExecFns;

verus! {

/// Outside error type of serde_json, carried through unopened.
#[verifier::external_type_specification]
#[verifier::external_body]
pub struct ExJsonError(serde_json::Error);

/// A lower-case hexadecimal digit.
pub open spec fn hex_digit(n: nat) -> char {
    "0123456789abcdef"@[n as int]
}

/// How a character stands inside a JSON string: quote and backslash are
/// escaped with a backslash, the usual control characters by their short
/// escapes, other control characters as `\u00XX`; everything else as is.
pub open spec fn json_char(c: char) -> Seq<char> {
    if c == '"' {
        seq!['\\', '"']
    } else if c == '\\' {
        seq!['\\', '\\']
    } else if c == '\u{08}' {
        seq!['\\', 'b']
    } else if c == '\t' {
        seq!['\\', 't']
    } else if c == '\n' {
        seq!['\\', 'n']
    } else if c == '\u{0C}' {
        seq!['\\', 'f']
    } else if c == '\r' {
        seq!['\\', 'r']
    } else if (c as u32) < 0x20 {
        seq!['\\', 'u', '0', '0', hex_digit((c as u32 / 16) as nat), hex_digit((c as u32 % 16) as nat)]
    } else {
        seq![c]
    }
}

/// The escaped contents of a JSON string.
pub open spec fn json_escaped(s: Seq<char>) -> Seq<char>
    decreases s.len(),
{
    if s.len() == 0 {
        Seq::empty()
    } else {
        json_escaped(s.drop_last()) + json_char(s.last())
    }
}

/// A JSON string literal.
pub open spec fn json_string(s: Seq<char>) -> Seq<char> {
    seq!['"'] + json_escaped(s) + seq!['"']
}

/// Object members `"key":"value"`, separated by commas.
pub open spec fn json_members(fields: Seq<(Seq<char>, Seq<char>)>) -> Seq<char>
    decreases fields.len(),
{
    if fields.len() == 0 {
        Seq::empty()
    } else {
        let last = json_string(fields.last().0) + seq![':'] + json_string(fields.last().1);
        if fields.len() == 1 {
            last
        } else {
            json_members(fields.drop_last()) + seq![','] + last
        }
    }
}

/// The compact JSON text of an object with these string members, in order.
pub open spec fn json_object_text(fields: Seq<(Seq<char>, Seq<char>)>) -> Seq<char> {
    seq!['{'] + json_members(fields) + seq!['}']
}

/// Whether no two members share a key.
pub open spec fn keys_distinct(fields: Seq<(Seq<char>, Seq<char>)>) -> bool {
    forall|i: int, j: int| 0 <= i < j < fields.len() ==> (#[trigger] fields[i]).0 != (#[trigger] fields[j]).0
}

/// Relies on serde_json::to_string, applied to a serde_json::Map (which keeps
/// insertion order) of string values: it cannot fail, as every key is a
/// string, and writes the compact object with serde_json's string escapes.
#[verifier::external_body]
fn json_object(fields: &Vec<(String, String)>) -> (r: Result<String, serde_json::Error>)
    requires
        keys_distinct(fields@.map_values(|f: (String, String)| (f.0@, f.1@))),
    ensures
        r is Ok,
        r is Ok ==> r->Ok_0@ == json_object_text(fields@.map_values(|f: (String, String)| (f.0@, f.1@))),
{
    let map: serde_json::Map<String, serde_json::Value> = fields
        .iter()
        .map(|(k, v)| (k.clone(), serde_json::Value::String(v.clone())))
        .collect();
    serde_json::to_string(&map)
}

/// What a status record says in the bar.
pub struct ModuleStatus {
    /// Text shown in the bar.
    pub text: String,
    /// Style class; empty for none.
    pub class: String,
    /// Tooltip; empty for none.
    pub tooltip: String,
}

/// Class given to the record of a highlighted (pinned, or open in
/// click-only mode) module.
pub open spec fn pinned_class() -> Seq<char> {
    "pinned"@
}

/// The members of a record's JSON object: `text` always, `class` and
/// `tooltip` only when they are not empty.
pub open spec fn status_fields(text: Seq<char>, class: Seq<char>, tooltip: Seq<char>) -> Seq<(Seq<char>, Seq<char>)> {
    seq![("text"@, text)] + (if class.len() > 0 {
        seq![("class"@, class)]
    } else {
        Seq::empty()
    }) + (if tooltip.len() > 0 {
        seq![("tooltip"@, tooltip)]
    } else {
        Seq::empty()
    })
}

impl ModuleStatus {
    /// A record with this text and no class or tooltip.
    pub fn new(text: &str) -> (r: Self)
        ensures
            r.text@ == text@,
            r.class@.len() == 0,
            r.tooltip@.len() == 0,
    {
        ModuleStatus { text: String::from_str(text), class: String::new(), tooltip: String::new() }
    }

    /// The record with its class set.
    pub fn with_class(self, class: &str) -> (r: Self)
        ensures
            r.text@ == self.text@,
            r.class@ == class@,
            r.tooltip@ == self.tooltip@,
    {
        ModuleStatus { class: String::from_str(class), ..self }
    }

    /// The record with its tooltip set.
    pub fn with_tooltip(self, tooltip: &str) -> (r: Self)
        ensures
            r.text@ == self.text@,
            r.class@ == self.class@,
            r.tooltip@ == tooltip@,
    {
        ModuleStatus { tooltip: String::from_str(tooltip), ..self }
    }

    /// The members of this record's JSON object.
    pub open spec fn fields(&self) -> Seq<(Seq<char>, Seq<char>)> {
        status_fields(self.text@, self.class@, self.tooltip@)
    }

    /// The members of this record's JSON object, as (key, value) pairs.
    pub fn json_fields(&self) -> (r: Vec<(String, String)>)
        ensures
            r@.map_values(|f: (String, String)| (f.0@, f.1@)) == self.fields(),
    {
        let mut r: Vec<(String, String)> = Vec::new();
        r.push((String::from_str("text"), String::from_str(self.text.as_str())));
        if self.class.as_str().unicode_len() > 0 {
            r.push((String::from_str("class"), String::from_str(self.class.as_str())));
        }
        if self.tooltip.as_str().unicode_len() > 0 {
            r.push((String::from_str("tooltip"), String::from_str(self.tooltip.as_str())));
        }
        assert(r@.map_values(|f: (String, String)| (f.0@, f.1@)) =~= self.fields());
        r
    }

    /// The record as one line of JSON.
    pub fn to_json(&self) -> (r: String)
        ensures
            r@ == json_object_text(self.fields()),
    {
        let fields = self.json_fields();
        proof {
            lemma_empty_members_omitted(*self);
        }
        match json_object(&fields) {
            Ok(s) => s,
            Err(_) => String::from_str("{\"text\":\"error\"}"),
        }
    }
}

/// Whether a JSON object with these members has a member named `key`.
pub open spec fn has_member(fields: Seq<(Seq<char>, Seq<char>)>, key: Seq<char>) -> bool {
    exists|i: int| 0 <= i < fields.len() && (#[trigger] fields[i]).0 == key
}

/// Every record encodes to a JSON object that starts with its text; its
/// `class` and `tooltip` members are there exactly when they are not empty,
/// and then hold the field's value.
pub proof fn lemma_empty_members_omitted(st: ModuleStatus)
    ensures
        st.fields().len() > 0 && st.fields()[0] == ("text"@, st.text@),
        has_member(st.fields(), "class"@) <==> st.class@.len() > 0,
        has_member(st.fields(), "tooltip"@) <==> st.tooltip@.len() > 0,
        st.class@.len() > 0 ==> st.fields()[1] == ("class"@, st.class@),
        st.tooltip@.len() > 0 ==> st.fields().last() == ("tooltip"@, st.tooltip@),
        keys_distinct(st.fields()),
{
    reveal_strlit("text");
    reveal_strlit("class");
    reveal_strlit("tooltip");
    let f = st.fields();
    if st.class@.len() > 0 {
        assert(f[1].0 == "class"@);
    }
    if st.tooltip@.len() > 0 {
        assert(f[f.len() - 1].0 == "tooltip"@);
    }
    assert(("text"@)[0] != ("class"@)[0]);
    assert(("text"@)[1] != ("tooltip"@)[1]);
    assert(("class"@)[0] != ("tooltip"@)[0]);
}

/// A record with no class and no tooltip encodes to an object with its text
/// alone: `{"text":...}`, with neither key in the output.
pub proof fn lemma_bare_record_text(st: ModuleStatus)
    requires
        st.class@.len() == 0,
        st.tooltip@.len() == 0,
    ensures
        json_object_text(st.fields()) == seq!['{'] + json_string("text"@) + seq![':'] + json_string(st.text@) + seq!['}'],
{
    assert(st.fields() =~= seq![("text"@, st.text@)]);
}

} // verus!
