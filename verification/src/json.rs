//! JSON text: reading documents by JSON Pointer and writing the few shapes
//! the wire protocols use.
//!
//! Parsing and string escaping are done by `serde_json`. What it returns is
//! not proved here; the contracts of the three private wrappers at the end of
//! this file are believed as written.

use vstd::prelude::*;
use vstd::string::*;

verus! {

/// `serde_json::Value`, a parsed JSON document. Opaque to the verifier.
#[verifier::external_type_specification]
#[verifier::external_body]
pub struct ExJsonValue(serde_json::Value);

/// What a document holds at one place: scalars with their value, containers
/// by kind only.
#[derive(Debug, PartialEq, Eq)]
pub enum JsonNode {
    Null,
    Bool(bool),
    /// An integer that fits `u64`.
    Unsigned(u64),
    /// Any other number (negative or fractional).
    Number,
    Text(String),
    Array,
    Object,
}

/// Mathematical value of a [`JsonNode`].
pub enum JsonNodeView {
    Null,
    Bool(bool),
    Unsigned(u64),
    Number,
    Text(Seq<char>),
    Array,
    Object,
}

impl View for JsonNode {
    type V = JsonNodeView;

    open spec fn view(&self) -> JsonNodeView {
        match self {
            JsonNode::Null => JsonNodeView::Null,
            JsonNode::Bool(b) => JsonNodeView::Bool(*b),
            JsonNode::Unsigned(n) => JsonNodeView::Unsigned(*n),
            JsonNode::Number => JsonNodeView::Number,
            JsonNode::Text(s) => JsonNodeView::Text(s@),
            JsonNode::Array => JsonNodeView::Array,
            JsonNode::Object => JsonNodeView::Object,
        }
    }
}

/// The nodes of the document that `serde_json::from_slice` reads from `text`,
/// keyed by JSON Pointer; `None` where it reports an error.
pub uninterp spec fn json_parsed(text: Seq<u8>) -> Option<Map<Seq<char>, JsonNodeView>>;

/// The nodes of a parsed document, keyed by the JSON Pointer under which
/// `serde_json::Value::pointer` finds them.
pub uninterp spec fn json_nodes(value: serde_json::Value) -> Map<Seq<char>, JsonNodeView>;

/// The JSON string literal, quotes included, that `serde_json::to_string`
/// writes for `text`.
pub uninterp spec fn json_quoted(text: Seq<char>) -> Seq<char>;

/// A parsed JSON document.
pub struct JsonDoc {
    value: serde_json::Value,
}

impl JsonDoc {
    /// The document's nodes by JSON Pointer.
    pub closed spec fn nodes(&self) -> Map<Seq<char>, JsonNodeView> {
        json_nodes(self.value)
    }

    /// Parses `text`; `None` where it is not one JSON document.
    pub fn parse(text: &[u8]) -> (r: Option<JsonDoc>)
        ensures
            match r {
                Some(doc) => json_parsed(text@) == Some(doc.nodes()),
                None => json_parsed(text@) is None,
            },
    {
        match parse_value(text) {
            Some(value) => Some(JsonDoc { value }),
            None => None,
        }
    }

    /// The node at `pointer`, if the document has one there.
    pub fn lookup(&self, pointer: &str) -> (r: Option<JsonNode>)
        ensures
            node_found(self.nodes(), pointer@, r),
    {
        node_at(&self.value, pointer)
    }
}

/// `found` is what `nodes` holds at `pointer`.
pub open spec fn node_found(
    nodes: Map<Seq<char>, JsonNodeView>,
    pointer: Seq<char>,
    found: Option<JsonNode>,
) -> bool {
    match found {
        Some(node) => nodes.contains_key(pointer) && nodes[pointer] == node@,
        None => !nodes.contains_key(pointer),
    }
}

/// The string at `pointer`, if a string is there.
pub open spec fn text_at(nodes: Map<Seq<char>, JsonNodeView>, pointer: Seq<char>) -> Option<
    Seq<char>,
> {
    if nodes.contains_key(pointer) {
        match nodes[pointer] {
            JsonNodeView::Text(s) => Some(s),
            _ => None,
        }
    } else {
        None
    }
}

/// The boolean at `pointer`, if a boolean is there.
pub open spec fn bool_at(nodes: Map<Seq<char>, JsonNodeView>, pointer: Seq<char>) -> Option<bool> {
    if nodes.contains_key(pointer) {
        match nodes[pointer] {
            JsonNodeView::Bool(b) => Some(b),
            _ => None,
        }
    } else {
        None
    }
}

/// The unsigned integer at `pointer`, if one is there.
pub open spec fn unsigned_at(nodes: Map<Seq<char>, JsonNodeView>, pointer: Seq<char>) -> Option<
    u64,
> {
    if nodes.contains_key(pointer) {
        match nodes[pointer] {
            JsonNodeView::Unsigned(n) => Some(n),
            _ => None,
        }
    } else {
        None
    }
}

impl JsonDoc {
    /// Whether the document has any node at `pointer`.
    pub fn has(&self, pointer: &str) -> (r: bool)
        ensures
            r == self.nodes().contains_key(pointer@),
    {
        self.lookup(pointer).is_some()
    }

    /// The string at `pointer`.
    pub fn text(&self, pointer: &str) -> (r: Option<String>)
        ensures
            match r {
                Some(s) => text_at(self.nodes(), pointer@) == Some(s@),
                None => text_at(self.nodes(), pointer@) is None,
            },
    {
        match self.lookup(pointer) {
            Some(JsonNode::Text(s)) => Some(s),
            _ => None,
        }
    }

    /// The boolean at `pointer`.
    pub fn boolean(&self, pointer: &str) -> (r: Option<bool>)
        ensures
            r == bool_at(self.nodes(), pointer@),
    {
        match self.lookup(pointer) {
            Some(JsonNode::Bool(b)) => Some(b),
            _ => None,
        }
    }

    /// The unsigned integer at `pointer`.
    pub fn unsigned(&self, pointer: &str) -> (r: Option<u64>)
        ensures
            r == unsigned_at(self.nodes(), pointer@),
    {
        match self.lookup(pointer) {
            Some(JsonNode::Unsigned(n)) => Some(n),
            _ => None,
        }
    }
}

/// The text of one decimal digit.
pub open spec fn digit_text(d: nat) -> Seq<char> {
    if d == 0 {
        "0"@
    } else if d == 1 {
        "1"@
    } else if d == 2 {
        "2"@
    } else if d == 3 {
        "3"@
    } else if d == 4 {
        "4"@
    } else if d == 5 {
        "5"@
    } else if d == 6 {
        "6"@
    } else if d == 7 {
        "7"@
    } else if d == 8 {
        "8"@
    } else {
        "9"@
    }
}

/// Decimal notation of `n`, without sign or leading zeros.
pub open spec fn decimal_text(n: nat) -> Seq<char>
    decreases n,
{
    if n < 10 {
        digit_text(n)
    } else {
        decimal_text(n / 10) + digit_text(n % 10)
    }
}

fn digit_str(d: u64) -> (r: &'static str)
    requires
        d < 10,
    ensures
        r@ == digit_text(d as nat),
{
    if d == 0 {
        "0"
    } else if d == 1 {
        "1"
    } else if d == 2 {
        "2"
    } else if d == 3 {
        "3"
    } else if d == 4 {
        "4"
    } else if d == 5 {
        "5"
    } else if d == 6 {
        "6"
    } else if d == 7 {
        "7"
    } else if d == 8 {
        "8"
    } else {
        "9"
    }
}

/// Ten to the power of `k`.
pub open spec fn pow10(k: nat) -> nat
    decreases k,
{
    if k == 0 {
        1
    } else {
        10 * pow10((k - 1) as nat)
    }
}

/// Decimal notation is made of ASCII digits, at least one, and a number
/// below ten to the `k` has at most `k` of them.
pub proof fn lemma_decimal_text(n: nat, k: nat)
    requires
        k >= 1,
        n < pow10(k),
    ensures
        1 <= decimal_text(n).len() <= k,
        vstd::utf8::is_ascii_chars(decimal_text(n)),
    decreases n,
{
    reveal_strlit("0");
    reveal_strlit("1");
    reveal_strlit("2");
    reveal_strlit("3");
    reveal_strlit("4");
    reveal_strlit("5");
    reveal_strlit("6");
    reveal_strlit("7");
    reveal_strlit("8");
    reveal_strlit("9");
    assert(digit_text(n % 10).len() == 1 && vstd::utf8::is_ascii_chars(digit_text(n % 10)));
    if n >= 10 {
        reveal_with_fuel(pow10, 2);
        assert(k >= 2) by {
            if k == 1 {
                assert(pow10(1) == 10);
            }
        }
        lemma_decimal_text(n / 10, (k - 1) as nat);
    }
}

/// The decimal notation of a `u64` has at most twenty digits.
pub proof fn lemma_decimal_text_u64(n: u64)
    ensures
        1 <= decimal_text(n as nat).len() <= 20,
        vstd::utf8::is_ascii_chars(decimal_text(n as nat)),
{
    reveal_with_fuel(pow10, 21);
    assert(pow10(20) == 100000000000000000000nat);
    lemma_decimal_text(n as nat, 20);
}

/// Appends the decimal notation of `n` to `out`.
pub fn push_decimal(out: &mut String, n: u64)
    ensures
        final(out)@ == old(out)@ + decimal_text(n as nat),
    decreases n,
{
    if n >= 10 {
        push_decimal(out, n / 10);
    }
    out.append(digit_str(n % 10));
}

/// Appends `text` as a JSON string literal to `out`.
pub fn push_quoted(out: &mut String, text: &str)
    ensures
        final(out)@ == old(out)@ + json_quoted(text@),
{
    let quoted = quote_text(text);
    out.append(quoted.as_str());
}

/// Calls `serde_json::from_slice` for a `serde_json::Value` and drops the
/// error's detail. Claims only that the outcome is the one named
/// [`json_parsed`]: the same bytes always give the same document or failure.
#[verifier::external_body]
fn parse_value(text: &[u8]) -> (r: Option<serde_json::Value>)
    ensures
        match r {
            Some(value) => json_parsed(text@) == Some(json_nodes(value)),
            None => json_parsed(text@) is None,
        },
{
    serde_json::from_slice::<serde_json::Value>(text).ok()
}

/// Calls `serde_json::Value::pointer` and copies what it finds into a
/// [`JsonNode`], a number with its value where `Number::as_u64` gives one.
/// Claims that this is the entry of [`json_nodes`] at `pointer`, and that
/// there is no entry where the lookup finds nothing.
#[verifier::external_body]
fn node_at(value: &serde_json::Value, pointer: &str) -> (r: Option<JsonNode>)
    ensures
        node_found(json_nodes(*value), pointer@, r),
{
    match value.pointer(pointer) {
        None => None,
        Some(serde_json::Value::Null) => Some(JsonNode::Null),
        Some(serde_json::Value::Bool(b)) => Some(JsonNode::Bool(*b)),
        Some(serde_json::Value::Number(n)) => Some(n.as_u64().map_or(JsonNode::Number, JsonNode::Unsigned)),
        Some(serde_json::Value::String(s)) => Some(JsonNode::Text(s.clone())),
        Some(serde_json::Value::Array(_)) => Some(JsonNode::Array),
        Some(serde_json::Value::Object(_)) => Some(JsonNode::Object),
    }
}

/// Calls `serde_json::to_string` on a string slice, which cannot fail.
/// Claims only that the result is the literal named [`json_quoted`].
#[verifier::external_body]
fn quote_text(text: &str) -> (r: String)
    ensures
        r@ == json_quoted(text@),
{
    serde_json::to_string(text).unwrap_or_default()
}

} // verus!
