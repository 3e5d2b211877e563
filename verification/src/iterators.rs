//! A hand-written iterator trait and filtering shoes by size.
use vstd::prelude::*;

verus! {

/// Yields one item at a time until it runs out.
pub trait Iterator {
    type Item;

    fn next(&mut self) -> Option<Self::Item>;
}

/// A shoe with a size and a style name.
#[derive(Debug, PartialEq, Eq)]
pub struct Shoe {
    pub size: u32,
    pub style: String,
}

/// Holds of the shoes whose size is the wanted one.
pub open spec fn has_size(shoe_size: u32) -> spec_fn(Shoe) -> bool {
    |s: Shoe| s.size == shoe_size
}

/// Keeps exactly the shoes of the wanted size, in their original order.
pub fn shoes_in_size(shoes: Vec<Shoe>, shoe_size: u32) -> (r: Vec<Shoe>)
    ensures
        r@ == shoes@.filter(has_size(shoe_size)),
{
    let mut results: Vec<Shoe> = Vec::new();
    let mut i: usize = 0;
    proof {
        reveal(Seq::filter);
        assert(shoes@.take(0).filter(has_size(shoe_size)) =~= Seq::<Shoe>::empty());
    }
    while i < shoes.len()
        invariant
            0 <= i <= shoes@.len(),
            results@ == shoes@.take(i as int).filter(has_size(shoe_size)),
        decreases shoes@.len() - i,
    {
        let s = &shoes[i];
        if s.size == shoe_size {
            results.push(Shoe { size: s.size, style: s.style.clone() });
        }
        proof {
            reveal(Seq::filter);
            let pred = has_size(shoe_size);
            let t = shoes@.take(i + 1);
            assert(t.drop_last() =~= shoes@.take(i as int));
            assert(t.last() == shoes@[i as int]);
            assert(results@ == shoes@.take(i + 1).filter(pred));
        }
        i += 1;
    }
    proof {
        assert(shoes@.take(shoes@.len() as int) =~= shoes@);
    }
    results
}

} // verus!
