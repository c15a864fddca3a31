//! The data stacks the interpreter hands back: what is left of the unlocking
//! script or of the witness once classification has taken its part.

use vstd::prelude::*;
use crate::bytes::to_vec;
use crate::primitives::{Instruction, InstructionView};
use crate::script::OP_PUSHNUM_1;

verus! {

/// One stack item: a data push, or one of the two booleans that the
/// interpreter tells apart from data.
#[derive(Clone, Debug, PartialEq, Eq)]
pub enum Element {
    Push(Vec<u8>),
    Satisfied,
    Dissatisfied,
}

pub enum ElementView {
    Push(Seq<u8>),
    Satisfied,
    Dissatisfied,
}

impl View for Element {
    type V = ElementView;

    open spec fn view(&self) -> ElementView {
        match self {
            Element::Push(d) => ElementView::Push(d@),
            Element::Satisfied => ElementView::Satisfied,
            Element::Dissatisfied => ElementView::Dissatisfied,
        }
    }
}

/// The item for a pushed byte string: `[1]` is true, the empty string is
/// false, anything else is data.
pub open spec fn element_of(d: Seq<u8>) -> ElementView {
    if d == seq![1u8] {
        ElementView::Satisfied
    } else if d.len() == 0 {
        ElementView::Dissatisfied
    } else {
        ElementView::Push(d)
    }
}

/// The item for one instruction of an unlocking script: pushes as above and
/// `OP_1` as true; any other opcode has no item.
pub open spec fn element_of_instruction(i: InstructionView) -> Option<ElementView> {
    match i {
        InstructionView::Push(d) => Some(element_of(d)),
        InstructionView::Op(o) => if o == OP_PUSHNUM_1 {
            Some(ElementView::Satisfied)
        } else {
            None
        },
    }
}

pub open spec fn elements_view(v: Seq<Element>) -> Seq<ElementView> {
    v.map_values(|e: Element| e@)
}

impl Element {
    pub fn from_bytes(d: &[u8]) -> (r: Element)
        ensures
            r@ == element_of(d@),
    {
        if d.len() == 1 && d[0] == 1 {
            assert(d@ =~= seq![1u8]);
            Element::Satisfied
        } else if d.len() == 0 {
            Element::Dissatisfied
        } else {
            assert(d@ != seq![1u8]) by {
                if d@ == seq![1u8] {
                    assert(d@.len() == 1 && d@[0] == 1);
                }
            }
            Element::Push(to_vec(d))
        }
    }

    pub fn from_instruction(i: &Instruction) -> (r: Option<Element>)
        ensures
            r matches Some(e) ==> element_of_instruction(i@) == Some(e@),
            r is None ==> element_of_instruction(i@) is None,
    {
        match i {
            Instruction::Push(d) => Some(Element::from_bytes(d.as_slice())),
            Instruction::Op(o) => if *o == OP_PUSHNUM_1 {
                Some(Element::Satisfied)
            } else {
                None
            },
        }
    }

    /// The pushed bytes, when the item is data.
    pub fn as_push(&self) -> (r: Option<&Vec<u8>>)
        ensures
            r matches Some(d) ==> self@ == ElementView::Push(d@),
            r is None ==> !(self@ is Push),
    {
        match self {
            Element::Push(d) => Some(d),
            _ => None,
        }
    }
}

/// A stack of items whose top is the last element.
#[derive(Clone, Debug, PartialEq, Eq)]
pub struct Stack {
    pub elements: Vec<Element>,
}

impl View for Stack {
    type V = Seq<ElementView>;

    open spec fn view(&self) -> Seq<ElementView> {
        elements_view(self.elements@)
    }
}

impl Stack {
    pub fn from_elements(elements: Vec<Element>) -> (r: Stack)
        ensures
            r@ == elements_view(elements@),
    {
        Stack { elements }
    }

    pub fn len(&self) -> (r: usize)
        ensures
            r == self@.len(),
    {
        self.elements.len()
    }

    pub fn is_empty(&self) -> (r: bool)
        ensures
            r == (self@.len() == 0),
    {
        self.elements.len() == 0
    }

    /// The top item, if any.
    pub fn last(&self) -> (r: Option<&Element>)
        ensures
            self@.len() == 0 ==> r is None,
            self@.len() > 0 ==> (r matches Some(e) && e@ == self@.last()),
    {
        let n = self.elements.len();
        if n == 0 {
            None
        } else {
            Some(&self.elements[n - 1])
        }
    }

    /// Takes the top item off.
    pub fn pop(&mut self) -> (r: Option<Element>)
        ensures
            old(self)@.len() == 0 ==> r is None && final(self)@ == old(self)@,
            old(self)@.len() > 0 ==> (r matches Some(e) && e@ == old(self)@.last() && final(self)@
                == old(self)@.drop_last()),
    {
        let r = self.elements.pop();
        proof {
            assert(elements_view(self.elements@) =~= elements_view(old(self).elements@).drop_last()
                || old(self)@.len() == 0);
        }
        r
    }
}

} // verus!
