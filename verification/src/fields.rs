//! The field sequence of one sentence.

use vstd::prelude::*;

verus! {

/// The byte that separates two fields.
pub const COMMA: u8 = 44;

/// The fields of `body`, a sentence body without identifier and checksum:
/// the stretches between its commas, from left to right. A body without a
/// comma is one field; two commas in a row enclose an empty field.
pub open spec fn split_commas(body: Seq<u8>) -> Seq<Seq<u8>>
    decreases body.len(),
{
    if body.len() == 0 {
        seq![Seq::<u8>::empty()]
    } else {
        let before = split_commas(body.drop_last());
        if body.last() == COMMA {
            before.push(Seq::<u8>::empty())
        } else {
            before.drop_last().push(before.last().push(body.last()))
        }
    }
}

/// The fields written out with a comma between neighbours.
pub open spec fn join_commas(fields: Seq<Seq<u8>>) -> Seq<u8>
    decreases fields.len(),
{
    if fields.len() == 0 {
        Seq::<u8>::empty()
    } else if fields.len() == 1 {
        fields[0]
    } else {
        join_commas(fields.drop_last()).push(COMMA) + fields.last()
    }
}

/// Splitting loses nothing and leaves no comma inside a field: a body is
/// never empty of fields, no field holds a comma, and the fields joined by
/// commas are the body again.
pub proof fn lemma_split_then_join(body: Seq<u8>)
    ensures
        split_commas(body).len() >= 1,
        forall|i: int, j: int|
            0 <= i < split_commas(body).len() && 0 <= j < split_commas(body)[i].len()
                ==> split_commas(body)[i][j] != COMMA,
        join_commas(split_commas(body)) == body,
    decreases body.len(),
{
    if body.len() > 0 {
        let shorter = body.drop_last();
        lemma_split_then_join(shorter);
        let before = split_commas(shorter);
        if body.last() == COMMA {
            let after = before.push(Seq::<u8>::empty());
            assert(after.drop_last() == before);
            assert(join_commas(after) == join_commas(before).push(COMMA) + Seq::<u8>::empty());
            assert(join_commas(after) == shorter.push(COMMA));
            assert(shorter.push(COMMA) == body);
        } else {
            let grown = before.last().push(body.last());
            let after = before.drop_last().push(grown);
            assert(after.drop_last() == before.drop_last());
            if before.len() == 1 {
                assert(join_commas(before) == before[0]);
                assert(join_commas(after) == grown);
                assert(grown == shorter.push(body.last()));
            } else {
                assert(join_commas(before) == join_commas(before.drop_last()).push(COMMA)
                    + before.last());
                assert(join_commas(after) == join_commas(before.drop_last()).push(COMMA) + grown);
                assert(join_commas(after) == shorter.push(body.last()));
            }
            assert(shorter.push(body.last()) == body);
        }
    } else {
        assert(join_commas(split_commas(body)) == body);
    }
}

/// An ordered sequence of field texts. An absent value is an empty text at
/// its position, never a missing entry.
#[derive(Clone, Debug, PartialEq, Eq)]
pub struct Fields {
    texts: Vec<Vec<u8>>,
}

impl View for Fields {
    type V = Seq<Seq<u8>>;

    closed spec fn view(&self) -> Seq<Seq<u8>> {
        Seq::new(self.texts@.len(), |i: int| self.texts@[i]@)
    }
}

impl Fields {
    /// Takes field texts that were split elsewhere, in their order.
    pub fn from_texts(texts: Vec<Vec<u8>>) -> (fields: Fields)
        ensures
            fields@.len() == texts@.len(),
            forall|i: int| 0 <= i < texts@.len() ==> fields@[i] == texts@[i]@,
    {
        Fields { texts }
    }

    /// Splits a sentence body at its commas.
    pub fn split(body: &[u8]) -> (fields: Fields)
        ensures
            fields@ == split_commas(body@),
    {
        let mut texts: Vec<Vec<u8>> = Vec::new();
        let mut current: Vec<u8> = Vec::new();
        let mut i: usize = 0;
        while i < body.len()
            invariant
                i <= body@.len(),
                split_commas(body@.take(i as int)) == Seq::new(
                    texts@.len(),
                    |k: int| texts@[k]@,
                ).push(current@),
            decreases body@.len() - i,
        {
            let byte = body[i];
            proof {
                let ghost_done = Seq::new(texts@.len(), |k: int| texts@[k]@);
                let upto = body@.take(i + 1);
                assert(upto.drop_last() == body@.take(i as int));
                assert(upto.last() == byte);
                assert(ghost_done.push(current@).drop_last() == ghost_done);
                assert(ghost_done.push(current@).last() == current@);
            }
            if byte == COMMA {
                let ghost before = Seq::new(texts@.len(), |k: int| texts@[k]@);
                texts.push(current);
                current = Vec::new();
                proof {
                    assert(Seq::new(texts@.len(), |k: int| texts@[k]@) == before.push(
                        texts@.last()@,
                    ));
                }
            } else {
                current.push(byte);
            }
            i += 1;
        }
        proof {
            assert(body@.take(i as int) == body@);
        }
        let ghost before = Seq::new(texts@.len(), |k: int| texts@[k]@);
        texts.push(current);
        proof {
            assert(Seq::new(texts@.len(), |k: int| texts@[k]@) == before.push(texts@.last()@));
        }
        Fields { texts }
    }

    /// The number of fields.
    pub fn len(&self) -> (n: usize)
        ensures
            n == self@.len(),
    {
        self.texts.len()
    }

    /// The text of the field at `position`.
    pub fn text(&self, position: usize) -> (text: &[u8])
        requires
            position < self@.len(),
        ensures
            text@ == self@[position as int],
    {
        self.texts[position].as_slice()
    }
}

} // verus!
