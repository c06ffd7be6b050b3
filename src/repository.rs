use vstd::prelude::*;

use crate::error::Error;
use crate::product::{Product, ProductView};
use crate::product_id::ProductId;

verus! {

/// The most products that one listing returns.
pub const MAX_LISTED: usize = 50;

/// The first stored product with the given id.
pub open spec fn find(rows: Seq<ProductView>, id: u128) -> Option<ProductView>
    decreases rows.len(),
{
    if rows.len() == 0 {
        None
    } else if rows[0].id == id {
        Some(rows[0])
    } else {
        find(rows.drop_first(), id)
    }
}

pub open spec fn unique_ids(rows: Seq<ProductView>) -> bool {
    forall|i: int, j: int|
        0 <= i < rows.len() && 0 <= j < rows.len() && #[trigger] rows[i].id == #[trigger] rows[j].id ==> i
            == j
}

pub open spec fn views(products: Seq<Product>) -> Seq<ProductView> {
    products.map_values(|p: Product| p@)
}

/// What one listing returns from the stored rows: the first fifty of them.
pub open spec fn listed(rows: Seq<ProductView>) -> Seq<ProductView> {
    if rows.len() <= MAX_LISTED {
        rows
    } else {
        rows.subrange(0, MAX_LISTED as int)
    }
}

/// Saving inserts a product whose id is not stored yet, and refuses any other.
pub open spec fn save_outcome(rows: Seq<ProductView>, p: ProductView) -> Result<Seq<ProductView>, Error> {
    if find(rows, p.id) is Some {
        Err(Error::ProductAlreadyExists)
    } else {
        Ok(rows.push(p))
    }
}

pub proof fn lemma_find_absent(rows: Seq<ProductView>, id: u128)
    ensures
        find(rows, id) is None <==> forall|k: int| 0 <= k < rows.len() ==> #[trigger] rows[k].id != id,
    decreases rows.len(),
{
    if rows.len() > 0 {
        lemma_find_absent(rows.drop_first(), id);
        if find(rows, id) is None {
            assert forall|k: int| 0 <= k < rows.len() implies #[trigger] rows[k].id != id by {
                if k > 0 {
                    assert(rows[k] == rows.drop_first()[k - 1]);
                }
            }
        } else if rows[0].id != id {
            let k = choose|k: int| 0 <= k < rows.drop_first().len() && #[trigger] rows.drop_first()[k].id == id;
            assert(rows[k + 1].id == id);
        }
    }
}

pub proof fn lemma_find_present(rows: Seq<ProductView>, k: int)
    requires
        unique_ids(rows),
        0 <= k < rows.len(),
    ensures
        find(rows, rows[k].id) == Some(rows[k]),
    decreases rows.len(),
{
    if k > 0 {
        let rest = rows.drop_first();
        assert(rows[0].id != rows[k].id);
        assert(unique_ids(rest)) by {
            assert forall|i: int, j: int|
                0 <= i < rest.len() && 0 <= j < rest.len() && #[trigger] rest[i].id == #[trigger] rest[j].id implies i
                    == j by {
                assert(rows[i + 1].id == rows[j + 1].id);
            }
        }
        assert(rest[k - 1] == rows[k]);
        lemma_find_present(rest, k - 1);
    }
}

/// A product that was saved is found again by its id, unchanged.
pub proof fn lemma_saved_product_is_found(rows: Seq<ProductView>, p: ProductView)
    requires
        unique_ids(rows),
        save_outcome(rows, p) is Ok,
    ensures
        find(save_outcome(rows, p)->Ok_0, p.id) == Some(p),
{
    let after = rows.push(p);
    lemma_find_absent(rows, p.id);
    assert(unique_ids(after));
    lemma_find_present(after, rows.len() as int);
}

/// Of two saves of products with one id, the first succeeds and the second is
/// refused because the product already exists.
pub proof fn lemma_second_save_conflicts(rows: Seq<ProductView>, first: ProductView, second: ProductView)
    requires
        unique_ids(rows),
        find(rows, first.id) is None,
        second.id == first.id,
    ensures
        save_outcome(rows, first) == Ok::<Seq<ProductView>, Error>(rows.push(first)),
        save_outcome(rows.push(first), second) == Err::<Seq<ProductView>, Error>(Error::ProductAlreadyExists),
{
    lemma_saved_product_is_found(rows, first);
}

/// A store of products.
pub trait ProductRepository {
    /// The stored products, in the order of their insertion.
    spec fn rows(&self) -> Seq<ProductView>;

    /// Up to fifty stored products.
    fn get(&self) -> (r: Result<Vec<Product>, Error>)
        ensures
            r matches Ok(v) ==> {
                &&& v.len() <= MAX_LISTED
                &&& unique_ids(views(v@))
                &&& forall|i: int| 0 <= i < v.len() ==> find(self.rows(), #[trigger] v[i]@.id) == Some(v[i]@)
            },
    ;

    /// The stored product with the given id, if any.
    fn get_by_id(&self, id: &ProductId) -> (r: Result<Option<Product>, Error>)
        ensures
            r matches Ok(found) ==> match found {
                Some(p) => find(self.rows(), id@) == Some(p@),
                None => find(self.rows(), id@) is None,
            },
    ;

    /// Inserts a product whose id is not stored yet.
    fn save(&mut self, product: &Product) -> (r: Result<(), Error>)
        ensures
            find(old(self).rows(), product@.id) is Some ==> (r matches Err(e) && e is ProductAlreadyExists),
            r is Ok ==> final(self).rows() == old(self).rows().push(product@),
            r is Err ==> final(self).rows() == old(self).rows(),
    ;
}

/// A repository that keeps its products in memory.
pub struct InMemoryProductRepository {
    products: Vec<Product>,
}

impl InMemoryProductRepository {
    #[verifier::type_invariant]
    spec fn inv(self) -> bool {
        unique_ids(views(self.products@))
    }

    pub fn new() -> (r: InMemoryProductRepository)
        ensures
            r.rows() == Seq::<ProductView>::empty(),
    {
        let r = InMemoryProductRepository { products: Vec::new() };
        assert(views(r.products@) =~= Seq::<ProductView>::empty());
        r
    }

    fn position_of(&self, id: u128) -> (r: Option<usize>)
        ensures
            match r {
                Some(k) => k < self.rows().len() && find(self.rows(), id) == Some(self.rows()[k as int]),
                None => find(self.rows(), id) is None,
            },
    {
        proof {
            use_type_invariant(self);
        }
        let ghost rows = self.rows();
        let mut i: usize = 0;
        while i < self.products.len()
            invariant
                rows == self.rows(),
                rows == views(self.products@),
                unique_ids(rows),
                i <= self.products.len(),
                forall|k: int| 0 <= k < i ==> #[trigger] rows[k].id != id,
            decreases self.products.len() - i,
        {
            if self.products[i].id.to_uuid() == id {
                proof {
                    lemma_find_present(rows, i as int);
                }
                return Some(i);
            }
            i = i + 1;
        }
        proof {
            lemma_find_absent(rows, id);
        }
        None
    }
}

impl ProductRepository for InMemoryProductRepository {
    closed spec fn rows(&self) -> Seq<ProductView> {
        views(self.products@)
    }

    fn get(&self) -> (r: Result<Vec<Product>, Error>)
        ensures
            r matches Ok(v) && views(v@) == listed(self.rows()),
    {
        proof {
            use_type_invariant(self);
        }
        let ghost rows = self.rows();
        let n = if self.products.len() < MAX_LISTED {
            self.products.len()
        } else {
            MAX_LISTED
        };
        let mut listing: Vec<Product> = Vec::new();
        let mut i: usize = 0;
        while i < n
            invariant
                rows == views(self.products@),
                n <= self.products.len(),
                n == listed(rows).len(),
                i <= n,
                views(listing@) =~= rows.subrange(0, i as int),
            decreases n - i,
        {
            let p = self.products[i].clone();
            let ghost before = listing@;
            listing.push(p);
            assert(views(listing@) =~= views(before).push(rows[i as int]));
            i = i + 1;
        }
        proof {
            assert(listed(rows) =~= rows.subrange(0, n as int));
            assert(unique_ids(views(listing@))) by {
                assert forall|a: int, b: int|
                    0 <= a < views(listing@).len() && 0 <= b < views(listing@).len() && #[trigger] views(
                        listing@,
                    )[a].id == #[trigger] views(listing@)[b].id implies a == b by {
                    assert(rows[a].id == rows[b].id);
                }
            }
            assert forall|k: int| 0 <= k < listing.len() implies find(rows, #[trigger] listing[k]@.id)
                == Some(listing[k]@) by {
                assert(listing[k]@ == views(listing@)[k]);
                lemma_find_present(rows, k);
            }
        }
        Ok(listing)
    }

    fn get_by_id(&self, id: &ProductId) -> (r: Result<Option<Product>, Error>)
        ensures
            r is Ok,
    {
        match self.position_of(id.to_uuid()) {
            Some(k) => Ok(Some(self.products[k].clone())),
            None => Ok(None),
        }
    }

    fn save(&mut self, product: &Product) -> (r: Result<(), Error>)
        ensures
            save_outcome(old(self).rows(), product@) matches Ok(after) ==> r is Ok && final(self).rows() == after,
            save_outcome(old(self).rows(), product@) matches Err(e) ==> r == Err::<(), Error>(e),
    {
        proof {
            use_type_invariant(&*self);
        }
        if self.position_of(product.id.to_uuid()).is_some() {
            return Err(Error::ProductAlreadyExists);
        }
        let ghost before = self.rows();
        proof {
            lemma_find_absent(before, product@.id);
            assert(unique_ids(before.push(product@)));
        }
        let mut products: Vec<Product> = Vec::new();
        proof {
            assert(views(products@) =~= Seq::<ProductView>::empty());
        }
        std::mem::swap(&mut products, &mut self.products);
        products.push(product.clone());
        assert(views(products@) =~= before.push(product@));
        self.products = products;
        Ok(())
    }
}

} // verus!
