//! Decoded relay responses, as plain values, and the lookups the
//! classifiers make in them.
use vstd::prelude::*;
use crate::text::{WString, clean_string, match_string, same_text};

verus! {

/// One decoded object of a relay message.
pub enum Object {
    Str(WString),
    Int(i32),
    Infolist(Infolist),
    /// Any other kind of object; classification ignores it.
    Other,
}

/// A named value inside an infolist item.
pub struct InfolistVariable {
    pub name: WString,
    pub value: Object,
}

/// One item of an infolist: its variables, in relay order.
pub struct InfolistItem {
    pub variables: Vec<InfolistVariable>,
}

/// An infolist: a name and its items, in relay order.
pub struct Infolist {
    pub name: WString,
    pub items: Vec<InfolistItem>,
}

/// A decoded relay message: its objects, in relay order.
pub struct Message {
    pub objects: Vec<Object>,
}

/// The value of the first variable of `vars` whose name decodes to `name`.
pub open spec fn find_var(vars: Seq<InfolistVariable>, name: Seq<char>) -> Option<Object>
    decreases vars.len(),
{
    if vars.len() == 0 {
        None
    } else if vars[0].name.text() == Some(name) {
        Some(vars[0].value)
    } else {
        find_var(vars.drop_first(), name)
    }
}

/// The value of the item's variable called `name`, if any.
pub open spec fn item_var(item: InfolistItem, name: Seq<char>) -> Option<Object> {
    find_var(item.variables@, name)
}

/// The text of the item's string variable called `name`; NULL reads as empty.
pub open spec fn item_str(item: InfolistItem, name: Seq<char>) -> Option<Seq<char>> {
    match item_var(item, name) {
        Some(Object::Str(ws)) => Some(ws.text_or_empty()),
        _ => None,
    }
}

/// The infolist a response carries: its first object, when that is an infolist.
pub open spec fn response_infolist(response: Option<Message>) -> Option<Infolist> {
    match response {
        Some(m) => if m.objects@.len() > 0 {
            match m.objects@[0] {
                Object::Infolist(il) => Some(il),
                _ => None,
            }
        } else {
            None
        },
        None => None,
    }
}

/// Finds the first variable of `item` named `name`.
pub fn find_variable<'a>(item: &'a InfolistItem, name: &str) -> (r: Option<&'a Object>)
    ensures
        r is Some <==> item_var(*item, name@) is Some,
        r is Some ==> item_var(*item, name@) == Some(*r->0),
{
    let n = item.variables.len();
    let mut i: usize = 0;
    assert(item.variables@.skip(0) == item.variables@);
    while i < n
        invariant
            n == item.variables@.len(),
            i <= n,
            item_var(*item, name@) == find_var(item.variables@.skip(i as int), name@),
        decreases n - i,
    {
        let v = &item.variables[i];
        assert(item.variables@.skip(i as int).drop_first() == item.variables@.skip(i + 1));
        if match_string(&v.name, name) {
            return Some(&v.value);
        }
        i = i + 1;
    }
    None
}

/// Reads the text of the item's string variable `name` (NULL gives "").
pub fn read_str_variable(item: &InfolistItem, name: &str) -> (r: Option<String>)
    ensures
        r is Some <==> item_str(*item, name@) is Some,
        r is Some ==> item_str(*item, name@) == Some(r->0@),
{
    match find_variable(item, name) {
        Some(Object::Str(ws)) => Some(crate::text::clean_string(ws)),
        _ => None,
    }
}

/// Picks the infolist out of a response: `None` when there was no response,
/// it held no object, or its first object is of another kind.
pub fn first_infolist(response: Option<Message>) -> (r: Option<Infolist>)
    ensures
        r == response_infolist(response),
{
    match response {
        Some(m) => {
            let mut objects = m.objects;
            if objects.len() > 0 {
                let first = objects.swap_remove(0);
                match first {
                    Object::Infolist(il) => Some(il),
                    _ => None,
                }
            } else {
                None
            }
        },
        None => None,
    }
}

/// Whether a variable is called `name` and holds a string whose text
/// (NULL read as empty) is `value`.
pub open spec fn is_str_var(v: InfolistVariable, name: Seq<char>, value: Seq<char>) -> bool {
    &&& v.name.text() == Some(name)
    &&& v.value is Str
    &&& v.value->Str_0.text_or_empty() == value
}

/// Whether any variable of the item is a string `name` with text `value`.
pub open spec fn has_str_var(item: InfolistItem, name: Seq<char>, value: Seq<char>) -> bool {
    exists|j: int| 0 <= j < item.variables@.len() && is_str_var(#[trigger] item.variables@[j], name, value)
}

/// Looks through every variable of the item for a string `name` with text `value`.
pub fn item_has_str_variable(item: &InfolistItem, name: &str, value: &str) -> (r: bool)
    ensures
        r == has_str_var(*item, name@, value@),
{
    let n = item.variables.len();
    let mut i: usize = 0;
    while i < n
        invariant
            n == item.variables@.len(),
            i <= n,
            forall|j: int| 0 <= j < i ==> !is_str_var(#[trigger] item.variables@[j], name@, value@),
        decreases n - i,
    {
        let v = &item.variables[i];
        if match_string(&v.name, name) {
            if let Object::Str(ws) = &v.value {
                let t = clean_string(ws);
                if same_text(t.as_str(), value) {
                    assert(is_str_var(item.variables@[i as int], name@, value@));
                    return true;
                }
            }
        }
        i = i + 1;
    }
    false
}

} // verus!
