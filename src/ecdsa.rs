use vstd::prelude::*;
use crate::felt::Felt;
use crate::relocatable::PyRelocatable;

verus! {

/// A signature's two components.
pub type SignaturePair = (Felt, Felt);

/// The signature recorded for `address`: its last entry.
pub open spec fn signature_of(s: Seq<(PyRelocatable, SignaturePair)>, address: PyRelocatable) -> Option<SignaturePair>
    decreases s.len(),
{
    if s.len() == 0 {
        None
    } else if s.last().0 == address {
        Some(s.last().1)
    } else {
        signature_of(s.drop_last(), address)
    }
}

/// `after` is `before` with the signature of `address` set to `pair`.
pub open spec fn signature_bound(
    before: Seq<(PyRelocatable, SignaturePair)>,
    address: PyRelocatable,
    pair: SignaturePair,
    after: Seq<(PyRelocatable, SignaturePair)>,
) -> bool {
    &&& signature_of(after, address) == Some(pair)
    &&& forall|a: PyRelocatable| a != address ==> #[trigger] signature_of(after, a) == signature_of(before, a)
}

pub proof fn lemma_signature_set(
    f: Seq<(PyRelocatable, SignaturePair)>,
    j: int,
    g: Seq<(PyRelocatable, SignaturePair)>,
    address: PyRelocatable,
    pair: SignaturePair,
)
    requires
        0 <= j < f.len(),
        f[j].0 == address,
        g == f.update(j, (address, pair)),
        forall|i: int| j < i < f.len() ==> (#[trigger] f[i]).0 != address,
    ensures
        signature_bound(f, address, pair, g),
    decreases f.len() - j,
{
    if j == f.len() - 1 {
        assert(g.drop_last() =~= f.drop_last());
        assert forall|a: PyRelocatable| a != address implies #[trigger] signature_of(g, a) == signature_of(f, a) by {}
    } else {
        let g1 = g.drop_last();
        let f1 = f.drop_last();
        assert(g1 =~= f1.update(j, (address, pair)));
        lemma_signature_set(f1, j, g1, address, pair);
        assert(g.last() == f.last());
        assert forall|a: PyRelocatable| a != address implies #[trigger] signature_of(g, a) == signature_of(f, a) by {
            assert(signature_of(g1, a) == signature_of(f1, a));
        }
    }
}

/// Sets the signature of `address` in a table: its last entry is replaced, or a
/// new one is added.
pub fn assign_signature(table: &mut Vec<(PyRelocatable, SignaturePair)>, address: PyRelocatable, pair: SignaturePair)
    ensures
        signature_bound(old(table)@, address, pair, final(table)@),
{
    let mut j: usize = table.len();
    while j > 0
        invariant
            j <= table@.len(),
            forall|i: int| j <= i < table@.len() ==> (#[trigger] table@[i]).0 != address,
            table@ == old(table)@,
        decreases j,
    {
        if table[j - 1].0 == address {
            let ghost g0 = table@;
            table.set(j - 1, (address, pair));
            proof {
                lemma_signature_set(g0, j - 1, table@, address, pair);
            }
            return;
        }
        j = j - 1;
    }
    let ghost g0 = table@;
    table.push((address, pair));
    assert(table@.drop_last() =~= g0);
}

/// The signature recorded for `address`, if any.
pub fn get_signature(table: &Vec<(PyRelocatable, SignaturePair)>, address: &PyRelocatable) -> (r: Option<SignaturePair>)
    ensures
        r == signature_of(table@, *address),
{
    let mut j: usize = table.len();
    assert(table@.take(j as int) =~= table@);
    while j > 0
        invariant
            j <= table@.len(),
            signature_of(table@, *address) == signature_of(table@.take(j as int), *address),
        decreases j,
    {
        assert(table@.take(j as int).drop_last() =~= table@.take(j - 1));
        if table[j - 1].0 == *address {
            return Some(table[j - 1].1);
        }
        j = j - 1;
    }
    None
}

/// Signatures that a hint supplies for cells of the signature builtin, waiting
/// to be handed to the machine.
pub struct PySignature {
    pub signatures: Vec<(PyRelocatable, SignaturePair)>,
}

impl Default for PySignature {
    fn default() -> (r: Self)
        ensures
            r.signatures@.len() == 0,
    {
        Self { signatures: Vec::new() }
    }
}

impl PySignature {
    pub fn new() -> (r: Self)
        ensures
            r.signatures@.len() == 0,
    {
        Self { signatures: Vec::new() }
    }

    pub fn add_signature(&mut self, address: PyRelocatable, pair: SignaturePair)
        ensures
            signature_bound(old(self).signatures@, address, pair, final(self).signatures@),
    {
        assign_signature(&mut self.signatures, address, pair);
    }

    /// Hands every signature to `table`, replacing what it held for the same
    /// addresses.
    pub fn update_signature(&self, table: &mut Vec<(PyRelocatable, SignaturePair)>)
        ensures
            forall|a: PyRelocatable| #[trigger] signature_of(final(table)@, a) == if signature_of(self.signatures@, a) is Some {
                signature_of(self.signatures@, a)
            } else {
                signature_of(old(table)@, a)
            },
    {
        let mut i: usize = 0;
        while i < self.signatures.len()
            invariant
                i <= self.signatures@.len(),
                forall|a: PyRelocatable| #[trigger] signature_of(table@, a) == if signature_of(self.signatures@.take(i as int), a) is Some {
                    signature_of(self.signatures@.take(i as int), a)
                } else {
                    signature_of(old(table)@, a)
                },
            decreases self.signatures.len() - i,
        {
            assert(self.signatures@.take(i + 1).drop_last() =~= self.signatures@.take(i as int));
            let (address, pair) = self.signatures[i];
            assign_signature(table, address, pair);
            i = i + 1;
        }
        assert(self.signatures@.take(i as int) =~= self.signatures@);
    }
}

} // verus!
