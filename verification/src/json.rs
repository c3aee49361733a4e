//! The message JSON helper: pulling the plain text out of a message object of
//! the shape `{"role": "...", "content": [{"type": "text", "text": "..."}, ...]}`.
//!
//! Parsing is serde_json's; the parsed document is held as a [`JsonValue`],
//! and everything after the parse is verified.
use vstd::prelude::*;

verus! {

/// A parsed JSON document, as plain values. Objects keep their members in
/// the order the parser produced them; numbers are kept only as such (no
/// value of a number is read here).
#[derive(Debug, PartialEq, Eq)]
pub enum JsonValue {
    Null,
    Bool(bool),
    Number,
    String(String),
    Array(Vec<JsonValue>),
    Object(Vec<(String, JsonValue)>),
}

#[verifier::external_type_specification]
#[verifier::external_body]
pub struct ExSerdeJsonValue(serde_json::Value);

/// What `serde_json::from_str::<serde_json::Value>` makes of a text, held as
/// a [`JsonValue`]: `None` when the text is not a JSON document.
pub uninterp spec fn parsed_json(text: Seq<char>) -> Option<JsonValue>;

/// The conversion half of [`parse_json`]: turns a `serde_json::Value`
/// variant by variant into a [`JsonValue`] (an object's map becomes its list
/// of members in the map's iteration order). It makes no claim of its own;
/// what `parse_json` hands back is named by [`parsed_json`].
#[verifier::external_body]
fn json_value_from_serde(v: serde_json::Value) -> JsonValue {
    match v {
        serde_json::Value::Null => JsonValue::Null,
        serde_json::Value::Bool(b) => JsonValue::Bool(b),
        serde_json::Value::Number(_) => JsonValue::Number,
        serde_json::Value::String(s) => JsonValue::String(s),
        serde_json::Value::Array(a) => JsonValue::Array(a.into_iter().map(json_value_from_serde).collect()),
        serde_json::Value::Object(m) => JsonValue::Object(
            m.into_iter().map(|(k, x)| (k, json_value_from_serde(x))).collect(),
        ),
    }
}

/// Calls `serde_json::from_str::<serde_json::Value>` on the text. The contract
/// claims that the result is a function of the text alone, named
/// [`parsed_json`]; what serde_json accepts as JSON is not stated.
#[verifier::external_body]
fn parse_json(text: &str) -> (r: Option<JsonValue>)
    ensures
        r == parsed_json(text@),
{
    match serde_json::from_str::<serde_json::Value>(text) {
        Ok(v) => Some(json_value_from_serde(v)),
        Err(_) => None,
    }
}

/// The value of the first member named `key` in a list of object members.
pub open spec fn member(members: Seq<(String, JsonValue)>, key: Seq<char>) -> Option<JsonValue>
    decreases members.len(),
{
    if members.len() == 0 {
        None
    } else if members[0].0@ == key {
        Some(members[0].1)
    } else {
        member(members.drop_first(), key)
    }
}

/// `value.get(key)`: the member named `key` when `value` is an object.
pub open spec fn get_member(value: JsonValue, key: Seq<char>) -> Option<JsonValue> {
    match value {
        JsonValue::Object(members) => member(members@, key),
        _ => None,
    }
}

/// `value.get(key).and_then(as_str)`: the member named `key` when it is a string.
pub open spec fn string_member(value: JsonValue, key: Seq<char>) -> Option<Seq<char>> {
    match get_member(value, key) {
        Some(JsonValue::String(s)) => Some(s@),
        _ => None,
    }
}

/// Whether a content block is a text block: its `"type"` member is the
/// string `"text"`.
pub open spec fn is_text_block(block: JsonValue) -> bool {
    string_member(block, "type"@) == Some("text"@)
}

/// The text a content block contributes: the `"text"` string of a text block,
/// nothing for any other block.
pub open spec fn block_text(block: JsonValue) -> Seq<char> {
    if is_text_block(block) {
        match string_member(block, "text"@) {
            Some(t) => t,
            None => Seq::empty(),
        }
    } else {
        Seq::empty()
    }
}

/// The texts of a list of content blocks, concatenated in order.
pub open spec fn blocks_text(blocks: Seq<JsonValue>) -> Seq<char>
    decreases blocks.len(),
{
    if blocks.len() == 0 {
        Seq::empty()
    } else {
        blocks_text(blocks.drop_last()) + block_text(blocks.last())
    }
}

/// The plain text of a message: the texts of the blocks of its `"content"`
/// array, or nothing when the message has no such array.
pub open spec fn message_text(message: JsonValue) -> Seq<char> {
    match get_member(message, "content"@) {
        Some(JsonValue::Array(items)) => blocks_text(items@),
        _ => Seq::empty(),
    }
}

/// The plain text of a message JSON text: empty when the text does not parse.
pub open spec fn extracted_text(message_json: Seq<char>) -> Seq<char> {
    match parsed_json(message_json) {
        Some(v) => message_text(v),
        None => Seq::empty(),
    }
}

proof fn lemma_member_skip(members: Seq<(String, JsonValue)>, key: Seq<char>, i: int)
    requires
        0 <= i < members.len(),
        members[i].0@ != key,
    ensures
        member(members.skip(i), key) == member(members.skip(i + 1), key),
{
    assert(members.skip(i).drop_first() =~= members.skip(i + 1));
}

/// `value.get(key)`, found by a scan of the members.
fn find_member<'a>(value: &'a JsonValue, key: &String) -> (r: Option<&'a JsonValue>)
    ensures
        r is Some <==> get_member(*value, key@) is Some,
        r matches Some(x) ==> get_member(*value, key@) == Some(*x),
{
    match value {
        JsonValue::Object(members) => {
            let mut i: usize = 0;
            assert(members@.skip(0) =~= members@);
            while i < members.len()
                invariant
                    i <= members@.len(),
                    get_member(*value, key@) == member(members@, key@),
                    member(members@, key@) == member(members@.skip(i as int), key@),
                decreases members@.len() - i,
            {
                if members[i].0 == *key {
                    assert(members@.skip(i as int)[0] == members@[i as int]);
                    return Some(&members[i].1);
                }
                proof {
                    lemma_member_skip(members@, key@, i as int);
                }
                i = i + 1;
            }
            assert(members@.skip(i as int).len() == 0);
            None
        },
        _ => None,
    }
}

/// `value.get(key).and_then(as_str)`.
fn find_string_member<'a>(value: &'a JsonValue, key: &String) -> (r: Option<&'a String>)
    ensures
        r is Some <==> string_member(*value, key@) is Some,
        r matches Some(s) ==> string_member(*value, key@) == Some(s@),
{
    match find_member(value, key) {
        Some(JsonValue::String(s)) => Some(s),
        _ => None,
    }
}

/// The plain text of a parsed message: the `"text"` strings of the blocks of
/// its `"content"` array whose `"type"` is `"text"`, concatenated in order.
/// Other blocks are skipped; a message without a `"content"` array gives the
/// empty string.
pub fn text_of_message(message: &JsonValue) -> (r: String)
    ensures
        r@ == message_text(*message),
{
    let content_key = String::from_str("content");
    let type_key = String::from_str("type");
    let text_key = String::from_str("text");
    let text_tag = String::from_str("text");
    let mut out = String::new();
    match find_member(message, &content_key) {
        Some(JsonValue::Array(items)) => {
            let mut i: usize = 0;
            assert(items@.take(0) =~= Seq::<JsonValue>::empty());
            while i < items.len()
                invariant
                    i <= items@.len(),
                    out@ == blocks_text(items@.take(i as int)),
                    type_key@ == "type"@,
                    text_key@ == "text"@,
                    text_tag@ == "text"@,
                decreases items@.len() - i,
            {
                let block = &items[i];
                let is_text = match find_string_member(block, &type_key) {
                    Some(t) => *t == text_tag,
                    None => false,
                };
                if is_text {
                    match find_string_member(block, &text_key) {
                        Some(t) => out.append(t.as_str()),
                        None => {},
                    }
                }
                proof {
                    assert(items@.take(i + 1).drop_last() =~= items@.take(i as int));
                    assert(items@.take(i + 1).last() == items@[i as int]);
                }
                i = i + 1;
            }
            assert(items@.take(i as int) =~= items@);
            out
        },
        _ => out,
    }
}

/// Extracts and concatenates just the plain text from a message JSON object
/// of the shape `{"role": "...", "content": [{"type": "text", "text": "..."}, ...]}`.
/// Non-text content blocks are skipped. Returns an empty string if the JSON
/// does not parse or does not have the expected shape.
pub fn extract_text(message_json: &str) -> (r: String)
    ensures
        r@ == extracted_text(message_json@),
{
    match parse_json(message_json) {
        Some(v) => text_of_message(&v),
        None => String::new(),
    }
}

/// The text of a list of blocks put one after another is the text of the
/// first list followed by the text of the second.
pub proof fn lemma_blocks_text_concat(a: Seq<JsonValue>, b: Seq<JsonValue>)
    ensures
        blocks_text(a + b) == blocks_text(a) + blocks_text(b),
    decreases b.len(),
{
    if b.len() == 0 {
        assert(a + b =~= a);
        assert(blocks_text(a) + blocks_text(b) =~= blocks_text(a));
    } else {
        lemma_blocks_text_concat(a, b.drop_last());
        assert((a + b).drop_last() =~= a + b.drop_last());
        assert((a + b).last() == b.last());
        assert(blocks_text(a) + blocks_text(b.drop_last()) + block_text(b.last())
            =~= blocks_text(a) + (blocks_text(b.drop_last()) + block_text(b.last())));
    }
}

/// Blocks that are not text blocks contribute nothing: a list of blocks none
/// of which has `"type": "text"` has the empty text.
pub proof fn lemma_non_text_blocks_skipped(blocks: Seq<JsonValue>)
    requires
        forall|i: int| 0 <= i < blocks.len() ==> !is_text_block(#[trigger] blocks[i]),
    ensures
        blocks_text(blocks) == Seq::<char>::empty(),
    decreases blocks.len(),
{
    if blocks.len() > 0 {
        let init = blocks.drop_last();
        assert forall|i: int| 0 <= i < init.len() implies !is_text_block(#[trigger] init[i]) by {
            assert(init[i] == blocks[i]);
        }
        lemma_non_text_blocks_skipped(init);
        assert(!is_text_block(blocks[blocks.len() - 1]));
        assert(blocks_text(init) + block_text(blocks.last()) =~= Seq::<char>::empty());
    }
}

/// `key` first occurs at index `i` of an object's member list.
pub open spec fn first_key_at(members: Seq<(String, JsonValue)>, key: Seq<char>, i: int) -> bool {
    &&& 0 <= i < members.len()
    &&& members[i].0@ == key
    &&& forall|j: int| 0 <= j < i ==> members[j].0@ != key
}

/// A content block written out: an object whose first `"type"` member is
/// the string `"text"` and whose first `"text"` member is a string with the
/// characters `t`.
pub open spec fn text_block_holding(block: JsonValue, t: Seq<char>) -> bool {
    match block {
        JsonValue::Object(ms) => exists|ti: int, xi: int|
            #![trigger first_key_at(ms@, "type"@, ti), first_key_at(ms@, "text"@, xi)]
            first_key_at(ms@, "type"@, ti) && first_key_at(ms@, "text"@, xi)
                && (ms@[ti].1 matches JsonValue::String(k) && k@ == "text"@)
                && (ms@[xi].1 matches JsonValue::String(x) && x@ == t),
        _ => false,
    }
}

/// A content block of another kind written out: an object whose first
/// `"type"` member is a string other than `"text"` (an image, audio, ...).
pub open spec fn other_block(block: JsonValue) -> bool {
    match block {
        JsonValue::Object(ms) => exists|ti: int|
            #![trigger first_key_at(ms@, "type"@, ti)]
            first_key_at(ms@, "type"@, ti)
                && (ms@[ti].1 matches JsonValue::String(k) && k@ != "text"@),
        _ => false,
    }
}

/// Block `i` of `items` is a text block holding `texts[i]`, or a block of
/// another kind and `texts[i]` is empty.
pub open spec fn blocks_hold(items: Seq<JsonValue>, texts: Seq<Seq<char>>) -> bool {
    &&& items.len() == texts.len()
    &&& forall|i: int| 0 <= i < items.len() ==> text_block_holding(#[trigger] items[i], texts[i])
        || (other_block(items[i]) && texts[i] == Seq::<char>::empty())
}

proof fn lemma_member_first(members: Seq<(String, JsonValue)>, key: Seq<char>, i: int)
    requires
        first_key_at(members, key, i),
    ensures
        member(members, key) == Some(members[i].1),
    decreases i,
{
    if i > 0 {
        let rest = members.drop_first();
        assert forall|j: int| 0 <= j < i - 1 implies rest[j].0@ != key by {
            assert(rest[j] == members[j + 1]);
        }
        assert(rest[i - 1] == members[i]);
        lemma_member_first(rest, key, i - 1);
    }
}

proof fn lemma_block_contributes(block: JsonValue, t: Seq<char>)
    requires
        text_block_holding(block, t) || (other_block(block) && t == Seq::<char>::empty()),
    ensures
        block_text(block) == t,
{
    if let JsonValue::Object(ms) = block {
        if text_block_holding(block, t) {
            let (ti, xi) = choose|ti: int, xi: int|
                #![trigger first_key_at(ms@, "type"@, ti), first_key_at(ms@, "text"@, xi)]
                first_key_at(ms@, "type"@, ti) && first_key_at(ms@, "text"@, xi)
                    && (ms@[ti].1 matches JsonValue::String(k) && k@ == "text"@)
                    && (ms@[xi].1 matches JsonValue::String(x) && x@ == t);
            lemma_member_first(ms@, "type"@, ti);
            lemma_member_first(ms@, "text"@, xi);
        } else {
            let ti = choose|ti: int|
                #![trigger first_key_at(ms@, "type"@, ti)]
                first_key_at(ms@, "type"@, ti)
                    && (ms@[ti].1 matches JsonValue::String(k) && k@ != "text"@);
            lemma_member_first(ms@, "type"@, ti);
        }
    }
}

proof fn lemma_blocks_hold_alt(items: Seq<JsonValue>, texts: Seq<Seq<char>>)
    requires
        blocks_hold(items, texts),
    ensures
        blocks_text(items) == texts.flatten_alt(),
    decreases items.len(),
{
    if items.len() > 0 {
        let n = items.len() - 1;
        assert forall|i: int| 0 <= i < n implies text_block_holding(#[trigger] items.drop_last()[i],
            texts.drop_last()[i]) || (other_block(items.drop_last()[i]) && texts.drop_last()[i]
            == Seq::<char>::empty()) by {
            assert(items.drop_last()[i] == items[i]);
            assert(texts.drop_last()[i] == texts[i]);
        }
        lemma_blocks_hold_alt(items.drop_last(), texts.drop_last());
        assert(text_block_holding(items[n], texts[n]) || (other_block(items[n]) && texts[n]
            == Seq::<char>::empty()));
        lemma_block_contributes(items.last(), texts.last());
    }
}

/// The text of a list of content blocks is the texts of its text blocks,
/// each exactly as written, concatenated in order with nothing between them;
/// blocks of other kinds contribute nothing.
pub proof fn law_blocks_text(items: Seq<JsonValue>, texts: Seq<Seq<char>>)
    requires
        blocks_hold(items, texts),
    ensures
        blocks_text(items) == texts.flatten(),
{
    lemma_blocks_hold_alt(items, texts);
    texts.lemma_flatten_and_flatten_alt_are_equivalent();
}

/// The text of a message object is that of the array in its first
/// `"content"` member, whatever its other members (`"role"` or any other)
/// hold: the texts of the text blocks, exactly as written, concatenated in
/// order.
pub proof fn law_message_text(
    members: Vec<(String, JsonValue)>,
    ci: int,
    items: Vec<JsonValue>,
    texts: Seq<Seq<char>>,
)
    requires
        first_key_at(members@, "content"@, ci),
        members@[ci].1 == JsonValue::Array(items),
        blocks_hold(items@, texts),
    ensures
        message_text(JsonValue::Object(members)) == texts.flatten(),
{
    lemma_member_first(members@, "content"@, ci);
    law_blocks_text(items@, texts);
}

/// What `extract_text` gives for a text that parses to a message object is
/// the texts of the message's text blocks, exactly as the parse holds them,
/// concatenated in order, with nothing added or stripped.
pub proof fn law_extracted_text(
    message_json: Seq<char>,
    members: Vec<(String, JsonValue)>,
    ci: int,
    items: Vec<JsonValue>,
    texts: Seq<Seq<char>>,
)
    requires
        parsed_json(message_json) == Some(JsonValue::Object(members)),
        first_key_at(members@, "content"@, ci),
        members@[ci].1 == JsonValue::Array(items),
        blocks_hold(items@, texts),
    ensures
        extracted_text(message_json) == texts.flatten(),
{
    law_message_text(members, ci, items, texts);
}

/// What `extract_text` gives for a text that parses is the text of the
/// parsed message, unchanged; for a text that does not parse it is empty.
pub proof fn law_extracted_is_message_text(message_json: Seq<char>)
    ensures
        parsed_json(message_json) matches Some(v) ==> extracted_text(message_json) == message_text(v),
        parsed_json(message_json) is None ==> extracted_text(message_json) == Seq::<char>::empty(),
{
}

} // verus!
