//! Directive parameters and the lists they come in.
use vstd::prelude::*;

verus! {

/// One parameter of a directive: `"type name" value`, with the value kept as
/// the text the tokenizer gave.
#[derive(Debug)]
pub struct Param {
    pub ty: String,
    pub name: String,
    pub value: String,
}

impl Param {
    pub fn new(ty: String, name: String, value: String) -> (r: Param)
        ensures
            r.ty == ty,
            r.name == name,
            r.value == value,
    {
        Param { ty, name, value }
    }

    /// A copy of this parameter, equal to it.
    pub fn duplicate(&self) -> (r: Param)
        ensures
            r == *self,
    {
        Param { ty: self.ty.clone(), name: self.name.clone(), value: self.value.clone() }
    }
}

/// A copy of a parameter list, equal to it element by element.
pub fn duplicate_params(p: &Vec<Param>) -> (r: Vec<Param>)
    ensures
        r@ == p@,
{
    let mut r: Vec<Param> = Vec::new();
    let mut i: usize = 0;
    while i < p.len()
        invariant
            i <= p.len(),
            r@ == p@.subrange(0, i as int),
        decreases p.len() - i,
    {
        r.push(p[i].duplicate());
        i = i + 1;
    }
    assert(r@ =~= p@);
    r
}

/// Appends copies of `more` after the parameters already in `p`, so that the
/// earlier ones keep precedence in a front-to-back lookup.
pub fn extend_params(p: &mut Vec<Param>, more: &Vec<Param>)
    ensures
        final(p)@ == old(p)@ + more@,
{
    let mut i: usize = 0;
    while i < more.len()
        invariant
            i <= more.len(),
            p@ == old(p)@ + more@.subrange(0, i as int),
        decreases more.len() - i,
    {
        p.push(more[i].duplicate());
        i = i + 1;
        assert(p@ =~= old(p)@ + more@.subrange(0, i as int));
    }
    assert(more@.subrange(0, more.len() as int) =~= more@);
}

} // verus!
