use vstd::prelude::*;
use serde_json::Value;
use crate::render::{Button, ButtonView, CardMessage, CardView};

verus! {

#[verifier::external_type_specification]
#[verifier::external_body]
pub struct ExValue(serde_json::Value);

/// A JSON value made of strings, arrays and objects.
pub enum JsonTree {
    Str(Seq<char>),
    Arr(Seq<JsonTree>),
    Obj(Map<Seq<char>, JsonTree>),
}

/// What a `serde_json::Value` holds.
pub uninterp spec fn json_tree(v: Value) -> JsonTree;

/// What each value holds, in order.
pub open spec fn json_trees(items: Seq<Value>) -> Seq<JsonTree> {
    items.map_values(|v: Value| json_tree(v))
}

/// No key occurs twice among the entries.
pub open spec fn keys_distinct(entries: Seq<(String, Value)>) -> bool {
    forall|i: int, j: int|
        0 <= i < j < entries.len() ==> #[trigger] entries[i].0@ != #[trigger] entries[j].0@
}

/// The object made of the entries: each key's text mapped to what its value holds.
pub open spec fn entries_tree(entries: Seq<(String, Value)>) -> Map<Seq<char>, JsonTree>
    decreases entries.len(),
{
    if entries.len() == 0 {
        Map::empty()
    } else {
        entries_tree(entries.drop_last()).insert(entries.last().0@, json_tree(entries.last().1))
    }
}

/// Relies on serde_json::Value::String: the JSON string holding `s`.
#[verifier::external_body]
fn string_value(s: String) -> (r: Value)
    ensures
        json_tree(r) == JsonTree::Str(s@),
{
    Value::String(s)
}

/// Relies on serde_json::Value::Array: the JSON array of `items`, in order.
#[verifier::external_body]
fn array_value(items: Vec<Value>) -> (r: Value)
    ensures
        json_tree(r) == JsonTree::Arr(json_trees(items@)),
{
    Value::Array(items)
}

/// Relies on serde_json::Map's FromIterator and serde_json::Value::Object:
/// the JSON object with these keys and values.
#[verifier::external_body]
fn object_value(entries: Vec<(String, Value)>) -> (r: Value)
    requires
        keys_distinct(entries@),
    ensures
        json_tree(r) == JsonTree::Obj(entries_tree(entries@)),
{
    Value::Object(entries.into_iter().collect())
}

/// An object with the single key `name`.
pub open spec fn single_tree(name: Seq<char>, value: JsonTree) -> JsonTree {
    JsonTree::Obj(Map::empty().insert(name, value))
}

/// An object with the two keys `k1` and `k2`.
pub open spec fn pair_tree(k1: Seq<char>, v1: JsonTree, k2: Seq<char>, v2: JsonTree) -> JsonTree {
    JsonTree::Obj(Map::empty().insert(k1, v1).insert(k2, v2))
}

/// A button as `{"textButton": {"text": .., "onClick": {"openLink": {"url": ..}}}}`.
pub open spec fn button_tree(b: ButtonView) -> JsonTree {
    single_tree(
        "textButton"@,
        pair_tree(
            "text"@,
            JsonTree::Str(b.text),
            "onClick"@,
            single_tree("openLink"@, single_tree("url"@, JsonTree::Str(b.url))),
        ),
    )
}

/// Each button's tree, in order.
pub open spec fn button_trees(buttons: Seq<ButtonView>) -> Seq<JsonTree> {
    buttons.map_values(|b: ButtonView| button_tree(b))
}

/// A card in the webhook's wire shape: the call-out under `text`, and under
/// `cards` one card with its `header` (`title`, `imageUrl`) and two
/// `sections`: the header message in a text paragraph, then the buttons.
pub open spec fn card_tree(c: CardView) -> JsonTree {
    let header = pair_tree("title"@, JsonTree::Str(c.title), "imageUrl"@, JsonTree::Str(c.image_url));
    let paragraph = single_tree("textParagraph"@, single_tree("text"@, JsonTree::Str(c.body)));
    let buttons = single_tree("buttons"@, JsonTree::Arr(button_trees(c.buttons)));
    let sections = seq![
        single_tree("widgets"@, JsonTree::Arr(seq![paragraph])),
        single_tree("widgets"@, JsonTree::Arr(seq![buttons])),
    ];
    let card = pair_tree("header"@, header, "sections"@, JsonTree::Arr(sections));
    pair_tree("text"@, JsonTree::Str(c.text), "cards"@, JsonTree::Arr(seq![card]))
}

fn key(name: &str) -> (r: String)
    ensures
        r@ == name@,
{
    let mut s = String::new();
    s.append(name);
    s
}

/// An object with a single key.
fn single(name: &str, value: Value) -> (r: Value)
    ensures
        json_tree(r) == single_tree(name@, json_tree(value)),
{
    let mut entries: Vec<(String, Value)> = Vec::new();
    entries.push((key(name), value));
    proof {
        let e = entries@;
        assert(e.drop_last() =~= Seq::<(String, Value)>::empty());
        assert(entries_tree(e.drop_last()) == Map::<Seq<char>, JsonTree>::empty());
        assert(entries_tree(e) == entries_tree(e.drop_last()).insert(e.last().0@, json_tree(e.last().1)));
    }
    object_value(entries)
}

/// An object with the two keys `k1` and `k2`, which differ.
fn pair(k1: &str, v1: Value, k2: &str, v2: Value) -> (r: Value)
    requires
        k1@ != k2@,
    ensures
        json_tree(r) == pair_tree(k1@, json_tree(v1), k2@, json_tree(v2)),
{
    let mut entries: Vec<(String, Value)> = Vec::new();
    entries.push((key(k1), v1));
    entries.push((key(k2), v2));
    proof {
        let e = entries@;
        assert(e.drop_last().drop_last() =~= Seq::<(String, Value)>::empty());
        assert(e.drop_last().last() == e[0]);
        assert(keys_distinct(e));
        let e1 = e.drop_last();
        assert(entries_tree(e1.drop_last()) == Map::<Seq<char>, JsonTree>::empty());
        assert(entries_tree(e1) == entries_tree(e1.drop_last()).insert(e1.last().0@, json_tree(e1.last().1)));
        assert(entries_tree(e) == entries_tree(e1).insert(e.last().0@, json_tree(e.last().1)));
    }
    object_value(entries)
}

impl Button {
    /// The button as `{"textButton": {"text": .., "onClick": {"openLink": {"url": ..}}}}`.
    pub fn to_json(&self) -> (r: Value)
        ensures
            json_tree(r) == button_tree(self@),
    {
        proof {
            reveal_strlit("text");
            reveal_strlit("onClick");
            assert("text"@.len() != "onClick"@.len());
        }
        let link = single("openLink", single("url", string_value(self.url.clone())));
        let fields = pair("text", string_value(self.text.clone()), "onClick", link);
        single("textButton", fields)
    }
}

impl CardMessage {
    /// The card in the webhook's wire shape: the call-out under `text`, and
    /// under `cards` one card with its header and two sections, the header
    /// message and then the buttons.
    pub fn to_json(&self) -> (r: Value)
        ensures
            json_tree(r) == card_tree(self@),
    {
        proof {
            reveal_strlit("text");
            reveal_strlit("cards");
            reveal_strlit("title");
            reveal_strlit("imageUrl");
            reveal_strlit("header");
            reveal_strlit("sections");
            assert("text"@.len() != "cards"@.len());
            assert("title"@.len() != "imageUrl"@.len());
            assert("header"@.len() != "sections"@.len());
        }
        let mut buttons: Vec<Value> = Vec::new();
        let mut i: usize = 0;
        while i < self.buttons.len()
            invariant
                i <= self.buttons@.len(),
                buttons@.len() == i,
                forall|j: int| 0 <= j < i ==> json_tree(#[trigger] buttons@[j]) == button_tree(self.buttons@[j]@),
            decreases self.buttons@.len() - i,
        {
            buttons.push(self.buttons[i].to_json());
            i += 1;
        }
        assert(json_trees(buttons@) =~= button_trees(self@.buttons));
        let header = pair(
            "title",
            string_value(self.title.clone()),
            "imageUrl",
            string_value(self.image_url.clone()),
        );
        let paragraph = single("textParagraph", single("text", string_value(self.body.clone())));
        let mut paragraph_widgets: Vec<Value> = Vec::new();
        paragraph_widgets.push(paragraph);
        assert(json_trees(paragraph_widgets@) =~= seq![json_tree(paragraph)]);
        let button_list = single("buttons", array_value(buttons));
        let mut button_widgets: Vec<Value> = Vec::new();
        button_widgets.push(button_list);
        assert(json_trees(button_widgets@) =~= seq![json_tree(button_list)]);
        let first = single("widgets", array_value(paragraph_widgets));
        let second = single("widgets", array_value(button_widgets));
        let mut sections: Vec<Value> = Vec::new();
        sections.push(first);
        sections.push(second);
        assert(json_trees(sections@) =~= seq![json_tree(first), json_tree(second)]);
        let card = pair("header", header, "sections", array_value(sections));
        let mut cards: Vec<Value> = Vec::new();
        cards.push(card);
        assert(json_trees(cards@) =~= seq![json_tree(card)]);
        pair("text", string_value(self.text.clone()), "cards", array_value(cards))
    }
}

} // verus!
