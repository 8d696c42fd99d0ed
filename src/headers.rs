//! An ordered list of header fields, as the rewrite engine sees them.
use vstd::prelude::*;

verus! {

/// Header fields in order; a name may occur more than once.
pub struct Headers {
    pub entries: Vec<(String, Vec<u8>)>,
}

/// One field as plain values: its name and the bytes of its value.
pub open spec fn field_view(e: (String, Vec<u8>)) -> (Seq<char>, Seq<u8>) {
    (e.0@, e.1@)
}

/// The fields of `h` whose name is not `name`, in their order.
pub open spec fn without_name(h: Seq<(Seq<char>, Seq<u8>)>, name: Seq<char>) -> Seq<(Seq<char>, Seq<u8>)>
    decreases h.len(),
{
    if h.len() == 0 {
        h
    } else {
        let rest = without_name(h.drop_last(), name);
        if h.last().0 == name {
            rest
        } else {
            rest.push(h.last())
        }
    }
}

/// The values under `name`, in their order.
pub open spec fn values_of(h: Seq<(Seq<char>, Seq<u8>)>, name: Seq<char>) -> Seq<Seq<u8>>
    decreases h.len(),
{
    if h.len() == 0 {
        Seq::empty()
    } else {
        let rest = values_of(h.drop_last(), name);
        if h.last().0 == name {
            rest.push(h.last().1)
        } else {
            rest
        }
    }
}

impl View for Headers {
    type V = Seq<(Seq<char>, Seq<u8>)>;

    open spec fn view(&self) -> Seq<(Seq<char>, Seq<u8>)> {
        self.entries@.map_values(|e: (String, Vec<u8>)| field_view(e))
    }
}

/// No field is left under `name` once they are all taken out.
pub proof fn lemma_without_name_has_none(h: Seq<(Seq<char>, Seq<u8>)>, name: Seq<char>)
    ensures
        values_of(without_name(h, name), name) == Seq::<Seq<u8>>::empty(),
        forall|i: int| 0 <= i < without_name(h, name).len() ==> without_name(h, name)[i].0 != name,
    decreases h.len(),
{
    if h.len() > 0 {
        lemma_without_name_has_none(h.drop_last(), name);
        let rest = without_name(h.drop_last(), name);
        if h.last().0 != name {
            assert(rest.push(h.last()).drop_last() =~= rest);
        }
    }
}

impl Headers {
    /// A list with no fields.
    pub fn new() -> (r: Self)
        ensures
            r@ == Seq::<(Seq<char>, Seq<u8>)>::empty(),
    {
        let r = Headers { entries: Vec::new() };
        assert(r@ =~= Seq::<(Seq<char>, Seq<u8>)>::empty());
        r
    }

    /// Adds a field after all others.
    pub fn append(&mut self, name: String, value: Vec<u8>)
        ensures
            final(self)@ == old(self)@.push((name@, value@)),
    {
        self.entries.push((name, value));
        assert(final(self)@ =~= old(self)@.push((name@, value@)));
    }

    /// Takes out every field named `name`.
    pub fn remove_all(&mut self, name: &String)
        ensures
            final(self)@ == without_name(old(self)@, name@),
    {
        let ghost h = self@;
        let mut kept: Vec<(String, Vec<u8>)> = Vec::new();
        let mut i: usize = 0;
        while i < self.entries.len()
            invariant
                i <= self.entries@.len(),
                h == self@,
                kept@.map_values(|e: (String, Vec<u8>)| field_view(e)) == without_name(h.take(i as int), name@),
            decreases self.entries@.len() - i,
        {
            let ghost before = kept@;
            proof {
                assert(h.take(i + 1).drop_last() =~= h.take(i as int));
                assert(h.take(i + 1).last() == field_view(self.entries@[i as int]));
            }
            if self.entries[i].0 != *name {
                let e = (self.entries[i].0.clone(), self.entries[i].1.clone());
                kept.push(e);
                proof {
                    assert(kept@.map_values(|e: (String, Vec<u8>)| field_view(e)) =~= before.map_values(
                        |e: (String, Vec<u8>)| field_view(e),
                    ).push(field_view(self.entries@[i as int])));
                }
            }
            i = i + 1;
        }
        proof {
            assert(h.take(i as int) =~= h);
        }
        self.entries = kept;
    }
}

} // verus!
