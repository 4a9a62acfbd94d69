//! A validated shopping cart: a non-empty mapping from SKU to quantity.

use vstd::prelude::*;

use crate::errors::OrderError;

verus! {

/// Stock keeping unit: an opaque product identifier.
#[derive(Debug, Clone, PartialEq, Eq, Hash)]
pub struct Sku(pub String);

/// A positive quantity of one SKU.
#[derive(Debug, Clone, Copy, PartialEq, Eq, Structural)]
pub struct Quantity(pub u16);

impl View for Sku {
    type V = Seq<char>;

    open spec fn view(&self) -> Seq<char> {
        self.0@
    }
}

/// The mathematical content of a cart: SKU text paired with its quantity.
pub type CartLine = (Seq<char>, u16);

/// What a list of cart entries means as a mapping, later entries winning.
pub open spec fn lines_to_map(lines: Seq<CartLine>) -> Map<Seq<char>, u16>
    decreases lines.len(),
{
    if lines.len() == 0 {
        Map::empty()
    } else {
        lines_to_map(lines.drop_last()).insert(lines.last().0, lines.last().1)
    }
}

/// True when no two entries share a SKU.
pub open spec fn unique_skus(lines: Seq<CartLine>) -> bool {
    forall|i: int, j: int| 0 <= i < j < lines.len() ==> lines[i].0 != lines[j].0
}

/// A cart with at least one entry and pairwise distinct SKUs.
///
/// Construction deduplicates its input the way a mapping literal would:
/// a later entry for the same SKU replaces the earlier one.
#[derive(Debug, PartialEq, Eq)]
pub struct NonEmptyCart {
    cart: Vec<(Sku, Quantity)>,
}

impl View for NonEmptyCart {
    type V = Seq<CartLine>;

    closed spec fn view(&self) -> Seq<CartLine> {
        self.cart@.map_values(|p: (Sku, Quantity)| (p.0@, p.1.0))
    }
}

impl NonEmptyCart {
    /// Everything constructors promise and methods preserve.
    pub open spec fn wf(&self) -> bool {
        &&& self@.len() > 0
        &&& unique_skus(self@)
    }

    /// The cart as a mapping from SKU to quantity.
    pub open spec fn to_map(&self) -> Map<Seq<char>, u16> {
        lines_to_map(self@)
    }

    /// Build a cart from a list of entries, later entries replacing earlier
    /// ones with the same SKU; an empty list is rejected.
    pub fn new(cart: Vec<(Sku, Quantity)>) -> (r: Result<Self, OrderError>)
        ensures
            match r {
                Ok(c) => {
                    &&& cart@.len() > 0
                    &&& c.wf()
                    &&& c.to_map() == lines_to_map(
                        cart@.map_values(|p: (Sku, Quantity)| (p.0@, p.1.0)),
                    )
                },
                Err(e) => e == OrderError::CartEmpty && cart@.len() == 0,
            },
    {
        if cart.is_empty() {
            return Err(OrderError::CartEmpty);
        }
        let ghost input = cart@.map_values(|p: (Sku, Quantity)| (p.0@, p.1.0));
        let mut kept: Vec<(Sku, Quantity)> = Vec::new();
        let mut i: usize = 0;
        while i < cart.len()
            invariant
                i <= cart.len(),
                input == cart@.map_values(|p: (Sku, Quantity)| (p.0@, p.1.0)),
                unique_skus(kept@.map_values(|p: (Sku, Quantity)| (p.0@, p.1.0))),
                lines_to_map(kept@.map_values(|p: (Sku, Quantity)| (p.0@, p.1.0)))
                    == lines_to_map(input.take(i as int)),
                i > 0 ==> kept@.len() > 0,
                kept@.len() <= i,
            decreases cart.len() - i,
        {
            let line = (Sku(clone_string(&cart[i].0.0)), cart[i].1);
            let j = find_sku(&kept, &line.0.0);
            let replaced = j < kept.len();
            proof {
                assert(input.take(i as int + 1).drop_last() =~= input.take(i as int));
            }
            if replaced {
                let ghost old_kept = kept@;
                kept.set(j, line);
                proof {
                    let kv_old = old_kept.map_values(|p: (Sku, Quantity)| (p.0@, p.1.0));
                    let kv_new = kept@.map_values(|p: (Sku, Quantity)| (p.0@, p.1.0));
                    assert(kv_new =~= kv_old.update(j as int, (input[i as int].0, input[i as int].1)));
                    lemma_update_matching_key(kv_old, j as int, input[i as int].1);
                    assert(lines_to_map(kv_new) =~= lines_to_map(input.take(i as int + 1)));
                }
            } else {
                let ghost old_kept = kept@;
                kept.push(line);
                proof {
                    let kv_old = old_kept.map_values(|p: (Sku, Quantity)| (p.0@, p.1.0));
                    let kv_new = kept@.map_values(|p: (Sku, Quantity)| (p.0@, p.1.0));
                    assert(kv_new =~= kv_old.push((input[i as int].0, input[i as int].1)));
                    assert(kv_new.drop_last() =~= kv_old);
                    assert(lines_to_map(kv_new) =~= lines_to_map(input.take(i as int + 1)));
                }
            }
            i += 1;
        }
        proof {
            assert(input.take(cart@.len() as int) =~= input);
        }
        Ok(NonEmptyCart { cart: kept })
    }

    /// The number of distinct SKUs in the cart.
    pub fn len(&self) -> (n: usize)
        ensures
            n == self@.len(),
    {
        self.cart.len()
    }

    /// The entry at one position, as owned plain values.
    pub fn line_at(&self, i: usize) -> (r: (String, u16))
        requires
            i < self@.len(),
        ensures
            (r.0@, r.1) == self@[i as int],
    {
        (clone_string(&self.cart[i].0.0), self.cart[i].1.0)
    }
}

impl Clone for NonEmptyCart {
    fn clone(&self) -> (r: Self)
        ensures
            r@ == self@,
    {
        let mut cart: Vec<(Sku, Quantity)> = Vec::new();
        let mut i: usize = 0;
        while i < self.cart.len()
            invariant
                i <= self.cart.len(),
                cart@.map_values(|p: (Sku, Quantity)| (p.0@, p.1.0))
                    =~= self@.take(i as int),
            decreases self.cart.len() - i,
        {
            let ghost old_cart = cart@;
            cart.push((Sku(clone_string(&self.cart[i].0.0)), self.cart[i].1));
            proof {
                let kv_old = old_cart.map_values(|p: (Sku, Quantity)| (p.0@, p.1.0));
                let kv_new = cart@.map_values(|p: (Sku, Quantity)| (p.0@, p.1.0));
                assert(kv_new =~= kv_old.push(self@[i as int]));
                assert(kv_new =~= self@.take(i as int + 1));
            }
            i += 1;
        }
        proof {
            assert(self@.take(self.cart@.len() as int) =~= self@);
            let r = NonEmptyCart { cart };
            assert(r@ =~= cart@.map_values(|p: (Sku, Quantity)| (p.0@, p.1.0)));
        }
        NonEmptyCart { cart }
    }
}

/// Replacing the quantity at a position whose SKU already heads the rest of
/// the list leaves the mapping of the whole list as if the new entry had
/// been appended.
proof fn lemma_update_matching_key(lines: Seq<CartLine>, j: int, q: u16)
    requires
        unique_skus(lines),
        0 <= j < lines.len(),
    ensures
        lines_to_map(lines.update(j, (lines[j].0, q))) == lines_to_map(lines).insert(lines[j].0, q),
        unique_skus(lines.update(j, (lines[j].0, q))),
    decreases lines.len(),
{
    let updated = lines.update(j, (lines[j].0, q));
    assert forall|a: int, b: int| 0 <= a < b < updated.len() implies updated[a].0 != updated[b].0 by {
        assert(lines[a].0 != lines[b].0);
    }
    if j == lines.len() - 1 {
        assert(updated.drop_last() =~= lines.drop_last());
        assert(lines_to_map(updated) =~= lines_to_map(lines).insert(lines[j].0, q));
    } else {
        assert(unique_skus(lines.drop_last())) by {
            assert forall|a: int, b: int| 0 <= a < b < lines.drop_last().len()
                implies lines.drop_last()[a].0 != lines.drop_last()[b].0 by {
                assert(lines[a].0 != lines[b].0);
            }
        }
        lemma_update_matching_key(lines.drop_last(), j, q);
        assert(updated.drop_last() =~= lines.drop_last().update(j, (lines[j].0, q)));
        assert(updated.last() == lines.last());
        let tail_key = lines.last().0;
        let this_key = lines[j].0;
        assert(this_key != tail_key);
        assert(lines_to_map(updated) =~= lines_to_map(lines).insert(this_key, q));
    }
}

/// The position of a SKU in the list, or its length when absent.
fn find_sku(kept: &Vec<(Sku, Quantity)>, key: &String) -> (j: usize)
    ensures
        j <= kept@.len(),
        forall|k: int| 0 <= k < j ==> kept@[k].0@ != key@,
        j < kept@.len() ==> kept@[j as int].0@ == key@,
{
    let mut j: usize = 0;
    while j < kept.len()
        invariant
            j <= kept.len(),
            forall|k: int| 0 <= k < j ==> kept@[k].0@ != key@,
        decreases kept.len() - j,
    {
        if string_eq(&kept[j].0.0, key) {
            return j;
        }
        j += 1;
    }
    j
}

/// An owned copy of a string, equal character for character.
pub fn clone_string(s: &String) -> (r: String)
    ensures
        r@ == s@,
{
    s.clone()
}

/// Character-for-character equality of two strings.
pub fn string_eq(a: &String, b: &String) -> (r: bool)
    ensures
        r == (a@ == b@),
{
    a.eq(b)
}

} // verus!
