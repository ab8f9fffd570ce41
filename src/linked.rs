//! A singly linked list of integers on the heap.

use crate::decimal::{push_signed_decimal, signed_decimal};
use vstd::prelude::*;

verus! {

/// One node of the list, owning the rest of it.
#[derive(Debug)]
pub struct Node {
    pub value: i32,
    pub next: Option<Box<Node>>,
}

impl Node {
    /// The values from this node to the end of the list.
    pub open spec fn values(&self) -> Seq<i32>
        decreases self,
    {
        match &self.next {
            Some(next) => seq![self.value] + next.values(),
            None => seq![self.value],
        }
    }
}

/// `"v1 -> v2 -> ... -> None"`: each value followed by `" -> "`, then `"None"`.
pub open spec fn list_text(values: Seq<i32>) -> Seq<char>
    decreases values.len(),
{
    if values.len() == 0 {
        "None"@
    } else {
        signed_decimal(values[0] as int) + " -> "@ + list_text(values.drop_first())
    }
}

/// The list from `node` on, written as `"1 -> 2 -> 3 -> None"`.
pub fn render_list(node: &Node) -> (r: String)
    ensures
        r@ == list_text(node.values()),
    decreases node,
{
    let mut text = String::new();
    push_signed_decimal(&mut text, node.value);
    text.append(" -> ");
    let rest = match &node.next {
        Some(next) => render_list(next),
        None => String::from_str("None"),
    };
    text.append(rest.as_str());
    let ghost values = node.values();
    assert(values[0] == node.value);
    assert(values.drop_first() =~= match &node.next {
        Some(next) => next.values(),
        None => Seq::<i32>::empty(),
    });
    assert(list_text(values) == signed_decimal(node.value as int) + " -> "@ + list_text(
        values.drop_first(),
    ));
    assert(text@ =~= list_text(values));
    text
}

} // verus!
