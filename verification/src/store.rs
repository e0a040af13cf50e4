//! Records of the document store as plain values: an item is a list of named
//! attributes, each a string, a number in decimal text, or something else.
//! A record of the store holds each name once (`distinct_names`), and so does
//! every record that this library makes; in a list that names an attribute
//! twice, the first one counts.

use crate::decimal::{decimal_text, i64_to_decimal};
use vstd::prelude::*;
use vstd::string::*;

verus! {

/// The value of one attribute of a stored item.
#[derive(Debug)]
pub enum AttributeValue {
    /// A string.
    S(String),
    /// A number, in decimal text.
    N(String),
    /// A value of any other kind; this library reads none of them.
    Other,
}

/// One named attribute of a stored item.
#[derive(Debug)]
pub struct Attribute {
    pub name: String,
    pub value: AttributeValue,
}

/// The names of the two tables of the message service.
#[derive(Debug)]
pub struct Tables {
    pub rooms: String,
    pub messages: String,
}

/// An attribute value as a mathematical value.
pub enum AttributeValueView {
    S(Seq<char>),
    N(Seq<char>),
    Other,
}

/// A named attribute as a mathematical value.
pub struct AttributeView {
    pub name: Seq<char>,
    pub value: AttributeValueView,
}

impl View for AttributeValue {
    type V = AttributeValueView;

    open spec fn view(&self) -> AttributeValueView {
        match self {
            AttributeValue::S(s) => AttributeValueView::S(s@),
            AttributeValue::N(n) => AttributeValueView::N(n@),
            AttributeValue::Other => AttributeValueView::Other,
        }
    }
}

impl View for Attribute {
    type V = AttributeView;

    open spec fn view(&self) -> AttributeView {
        AttributeView { name: self.name@, value: self.value@ }
    }
}

impl DeepView for Attribute {
    type V = AttributeView;

    open spec fn deep_view(&self) -> AttributeView {
        self@
    }
}

impl Clone for AttributeValue {
    fn clone(&self) -> (r: Self)
        ensures
            r == *self,
    {
        match self {
            AttributeValue::S(s) => AttributeValue::S(s.clone()),
            AttributeValue::N(n) => AttributeValue::N(n.clone()),
            AttributeValue::Other => AttributeValue::Other,
        }
    }
}

impl Clone for Attribute {
    fn clone(&self) -> (r: Self)
        ensures
            r == *self,
    {
        Attribute { name: self.name.clone(), value: self.value.clone() }
    }
}

impl Clone for Tables {
    fn clone(&self) -> (r: Self)
        ensures
            r == *self,
    {
        Tables { rooms: self.rooms.clone(), messages: self.messages.clone() }
    }
}

/// The value of the first attribute of `item` that is called `name`.
pub open spec fn attribute_of(item: Seq<AttributeView>, name: Seq<char>) -> Option<
    AttributeValueView,
>
    decreases item.len(),
{
    if item.len() == 0 {
        None
    } else if item.first().name == name {
        Some(item.first().value)
    } else {
        attribute_of(item.drop_first(), name)
    }
}

/// The string held under `name`, where `item` holds one there.
pub open spec fn text_of(item: Seq<AttributeView>, name: Seq<char>) -> Option<Seq<char>> {
    match attribute_of(item, name) {
        Some(AttributeValueView::S(s)) => Some(s),
        _ => None,
    }
}

/// The number text held under `name`, where `item` holds one there.
pub open spec fn number_of(item: Seq<AttributeView>, name: Seq<char>) -> Option<Seq<char>> {
    match attribute_of(item, name) {
        Some(AttributeValueView::N(n)) => Some(n),
        _ => None,
    }
}

/// A string attribute.
pub open spec fn text_attribute(name: Seq<char>, value: Seq<char>) -> AttributeView {
    AttributeView { name, value: AttributeValueView::S(value) }
}

/// A number attribute.
pub open spec fn number_attribute(name: Seq<char>, value: int) -> AttributeView {
    AttributeView { name, value: AttributeValueView::N(decimal_text(value)) }
}

pub proof fn lemma_attribute_of_skip(item: Seq<AttributeView>, name: Seq<char>, i: int)
    requires
        0 <= i < item.len(),
        forall|k: int| 0 <= k < i ==> (#[trigger] item[k]).name != name,
    ensures
        attribute_of(item, name) == if item[i].name == name {
            Some(item[i].value)
        } else {
            attribute_of(item.skip(i + 1), name)
        },
    decreases i,
{
    if i == 0 {
        assert(item.drop_first() =~= item.skip(1));
    } else {
        let rest = item.drop_first();
        assert(item[0].name != name);
        assert forall|k: int| 0 <= k < i - 1 implies (#[trigger] rest[k]).name != name by {
            assert(rest[k] == item[k + 1]);
        }
        lemma_attribute_of_skip(rest, name, i - 1);
        assert(rest.skip(i) =~= item.skip(i + 1));
    }
}

/// Whether no two attributes of `item` have the same name, as in a record
/// of the store, which holds each attribute once.
pub open spec fn distinct_names(item: Seq<AttributeView>) -> bool {
    forall|i: int, j: int|
        0 <= i < j < item.len() ==> (#[trigger] item[i]).name != (#[trigger] item[j]).name
}

/// Whether `item` has no attribute called `name`.
pub open spec fn lacks_name(item: Seq<AttributeView>, name: Seq<char>) -> bool {
    forall|k: int| 0 <= k < item.len() ==> (#[trigger] item[k]).name != name
}

pub proof fn lemma_push_keeps_names_distinct(item: Seq<AttributeView>, added: AttributeView)
    requires
        distinct_names(item),
        lacks_name(item, added.name),
    ensures
        distinct_names(item.push(added)),
{
    let all = item.push(added);
    assert forall|i: int, j: int| 0 <= i < j < all.len() implies (#[trigger] all[i]).name != (
    #[trigger] all[j]).name by {
        if j < item.len() {
            assert(all[i] == item[i]);
            assert(all[j] == item[j]);
        } else {
            assert(all[i] == item[i]);
        }
    }
}

pub proof fn lemma_attribute_absent(item: Seq<AttributeView>, name: Seq<char>)
    requires
        forall|k: int| 0 <= k < item.len() ==> (#[trigger] item[k]).name != name,
    ensures
        attribute_of(item, name) is None,
    decreases item.len(),
{
    if item.len() > 0 {
        let rest = item.drop_first();
        assert(item[0].name != name);
        assert forall|k: int| 0 <= k < rest.len() implies (#[trigger] rest[k]).name != name by {
            assert(rest[k] == item[k + 1]);
        }
        lemma_attribute_absent(rest, name);
    }
}

pub proof fn lemma_attribute_at(item: Seq<AttributeView>, name: Seq<char>, i: int)
    requires
        0 <= i < item.len(),
        item[i].name == name,
        forall|k: int| 0 <= k < i ==> (#[trigger] item[k]).name != name,
    ensures
        attribute_of(item, name) == Some(item[i].value),
{
    lemma_attribute_of_skip(item, name, i);
}

/// The first attribute of `item` that is called `name`.
pub fn find_attribute<'a>(item: &'a Vec<Attribute>, name: &str) -> (r: Option<&'a AttributeValue>)
    ensures
        match r {
            Some(v) => attribute_of(item.deep_view(), name@) == Some(v@),
            None => attribute_of(item.deep_view(), name@) is None,
        },
{
    let key = String::from_str(name);
    let mut i: usize = 0;
    while i < item.len()
        invariant
            i <= item.len(),
            key@ == name@,
            forall|k: int| 0 <= k < i ==> (#[trigger] item.deep_view()[k]).name != name@,
        decreases item.len() - i,
    {
        proof {
            lemma_attribute_of_skip(item.deep_view(), name@, i as int);
        }
        if item[i].name == key {
            return Some(&item[i].value);
        }
        i = i + 1;
    }
    proof {
        if item.len() > 0 {
            lemma_attribute_of_skip(item.deep_view(), name@, item.len() - 1);
            assert(item.deep_view().skip(item.len() as int) =~= Seq::<AttributeView>::empty());
        }
    }
    None
}

/// The string that `item` holds under `name`.
pub fn get_text(item: &Vec<Attribute>, name: &str) -> (r: Option<String>)
    ensures
        crate::text::opt_text(r) == text_of(item.deep_view(), name@),
{
    match find_attribute(item, name) {
        Some(AttributeValue::S(s)) => Some(s.clone()),
        _ => None,
    }
}

/// The number text that `item` holds under `name`.
pub fn get_number(item: &Vec<Attribute>, name: &str) -> (r: Option<String>)
    ensures
        crate::text::opt_text(r) == number_of(item.deep_view(), name@),
{
    match find_attribute(item, name) {
        Some(AttributeValue::N(n)) => Some(n.clone()),
        _ => None,
    }
}

/// Appends the string attribute `name` to `item`.
pub fn put_text(item: &mut Vec<Attribute>, name: &str, value: String)
    ensures
        final(item).deep_view() == old(item).deep_view().push(text_attribute(name@, value@)),
{
    item.push(Attribute { name: String::from_str(name), value: AttributeValue::S(value) });
    assert(item.deep_view() =~= old(item).deep_view().push(text_attribute(name@, value@)));
}

/// Appends the number attribute `name` to `item`.
pub fn put_number(item: &mut Vec<Attribute>, name: &str, value: i64)
    ensures
        final(item).deep_view() == old(item).deep_view().push(
            number_attribute(name@, value as int),
        ),
{
    item.push(
        Attribute { name: String::from_str(name), value: AttributeValue::N(i64_to_decimal(value)) },
    );
    assert(item.deep_view() =~= old(item).deep_view().push(
        number_attribute(name@, value as int),
    ));
}

} // verus!
