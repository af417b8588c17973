//! The products subgraph: a fixed catalogue of products, and the purchases
//! that extend the users of the users subgraph.
use vstd::prelude::*;

verus! {

/// A product of the catalogue.
pub struct Product {
    pub id: String,
    pub name: String,
    pub price: String,
}

impl View for Product {
    type V = (Seq<char>, Seq<char>, Seq<char>);

    open spec fn view(&self) -> (Seq<char>, Seq<char>, Seq<char>) {
        (self.id@, self.name@, self.price@)
    }
}

impl Clone for Product {
    fn clone(&self) -> (r: Product)
        ensures
            r@ == self@,
    {
        Product { id: self.id.clone(), name: self.name.clone(), price: self.price.clone() }
    }
}

/// The catalogue, as (identifier, name, price).
pub open spec fn product_table() -> Seq<(Seq<char>, Seq<char>, Seq<char>)> {
    seq![
        ("1"@, "Avocado plushie"@, "$12"@),
        ("2"@, "Carrot stick figure"@, "$14"@),
        ("3"@, "Tomato pillow"@, "$22"@),
        ("4"@, "Pumpkin snuggie"@, "$8"@),
    ]
}

/// The view of a list of products.
pub open spec fn products_view(v: Seq<Product>) -> Seq<(Seq<char>, Seq<char>, Seq<char>)> {
    v.map_values(|p: Product| p@)
}

/// The catalogue positions of what the user `user` has bought.
pub open spec fn purchase_table(user: Seq<char>) -> Seq<int> {
    if user == "1"@ {
        seq![0int, 1int]
    } else if user == "2"@ {
        seq![2int, 3int]
    } else if user == "3"@ {
        seq![0int, 4int]
    } else {
        seq![]
    }
}

/// The products at those of `positions` that lie inside `table`, in order;
/// a position outside the table is passed over.
pub open spec fn pick(
    table: Seq<(Seq<char>, Seq<char>, Seq<char>)>,
    positions: Seq<int>,
) -> Seq<(Seq<char>, Seq<char>, Seq<char>)> {
    positions.filter(|i: int| 0 <= i < table.len()).map_values(|i: int| table[i])
}

/// What the user `user` has bought. A purchase record that names a product
/// the catalogue lacks contributes nothing.
pub open spec fn purchases_of(user: Seq<char>) -> Seq<(Seq<char>, Seq<char>, Seq<char>)> {
    pick(product_table(), purchase_table(user))
}

fn product(id: &str, name: &str, price: &str) -> (r: Product)
    ensures
        r@ == (id@, name@, price@),
{
    Product { id: String::from_str(id), name: String::from_str(name), price: String::from_str(price) }
}

/// The whole catalogue, in order.
pub fn products() -> (r: Vec<Product>)
    ensures
        products_view(r@) == product_table(),
{
    let mut v: Vec<Product> = Vec::new();
    v.push(product("1", "Avocado plushie", "$12"));
    v.push(product("2", "Carrot stick figure", "$14"));
    v.push(product("3", "Tomato pillow", "$22"));
    v.push(product("4", "Pumpkin snuggie", "$8"));
    assert(products_view(v@) =~= product_table());
    v
}

fn pick_products(table: &Vec<Product>, positions: &Vec<usize>) -> (r: Vec<Product>)
    ensures
        products_view(r@) == pick(products_view(table@), positions@.map_values(|i: usize| i as int)),
{
    let ghost wanted = positions@.map_values(|i: usize| i as int);
    let ghost rows = products_view(table@);
    let ghost inside = |i: int| 0 <= i < rows.len();
    let ghost row_at = |i: int| rows[i];
    let mut out: Vec<Product> = Vec::new();
    let mut k: usize = 0;
    while k < positions.len()
        invariant
            k <= positions.len(),
            wanted == positions@.map_values(|i: usize| i as int),
            rows == products_view(table@),
            inside == (|i: int| 0 <= i < rows.len()),
            row_at == (|i: int| rows[i]),
            products_view(out@) =~= wanted.take(k as int).filter(inside).map_values(row_at),
        decreases positions.len() - k,
    {
        let i = positions[k];
        assert(wanted.take(k + 1) =~= wanted.take(k as int).push(wanted[k as int]));
        proof {
            wanted.take(k as int).lemma_filter_push(wanted[k as int], inside);
        }
        if i < table.len() {
            let p = table[i].clone();
            let ghost before = out@;
            let ghost kept = wanted.take(k as int).filter(inside);
            out.push(p);
            assert(kept.push(wanted[k as int]).map_values(row_at) =~= kept.map_values(row_at).push(
                rows[i as int],
            ));
            assert(products_view(out@) =~= products_view(before).push(p@));
        }
        k = k + 1;
    }
    assert(wanted.take(k as int) =~= wanted);
    out
}

/// The user entity, extended here with what the user has bought.
pub struct User {
    pub id: String,
}

impl User {
    /// What this user has bought, in order; a purchase record that names a
    /// product the catalogue lacks is passed over.
    pub fn purchases(&self) -> (r: Vec<Product>)
        ensures
            products_view(r@) == purchases_of(self.id@),
    {
        let mut positions: Vec<usize> = Vec::new();
        proof {
            reveal_strlit("1");
            reveal_strlit("2");
            reveal_strlit("3");
        }
        if self.id == String::from_str("1") {
            positions.push(0);
            positions.push(1);
        } else if self.id == String::from_str("2") {
            positions.push(2);
            positions.push(3);
        } else if self.id == String::from_str("3") {
            positions.push(0);
            positions.push(4);
        }
        assert(positions@.map_values(|i: usize| i as int) =~= purchase_table(self.id@));
        pick_products(&products(), &positions)
    }
}

/// The first product of `table` with identifier `id`, if there is one.
fn find_by_id(table: &Vec<Product>, id: &str) -> (r: Option<Product>)
    ensures
        r is None <==> forall|i: int| 0 <= i < table@.len() ==> (#[trigger] table@[i]).id@ != id@,
        r matches Some(p) ==> exists|i: int|
            0 <= i < table@.len() && (#[trigger] table@[i])@ == p@ && p.id@ == id@,
{
    let key = String::from_str(id);
    let mut k: usize = 0;
    while k < table.len()
        invariant
            k <= table@.len(),
            key@ == id@,
            forall|i: int| 0 <= i < k ==> (#[trigger] table@[i]).id@ != id@,
        decreases table.len() - k,
    {
        if table[k].id == key {
            let p = table[k].clone();
            assert(table@[k as int]@ == p@);
            return Some(p);
        }
        k = k + 1;
    }
    None
}

/// Whether the catalogue has a product with identifier `id`.
pub open spec fn in_catalogue(id: Seq<char>) -> bool {
    exists|i: int| 0 <= i < product_table().len() && (#[trigger] product_table()[i]).0 == id
}

/// The root query type of the products subgraph.
pub struct Query;

impl Query {
    /// Entity lookup by key: the product with identifier `id`, or `None`
    /// when the catalogue has no such product, which the GraphQL layer
    /// reports as a field error.
    pub fn find_product_by_id(&self, id: &str) -> (r: Option<Product>)
        ensures
            r is None <==> !in_catalogue(id@),
            r matches Some(p) ==> product_table().contains(p@) && p.id@ == id@,
    {
        self.product(id)
    }

    /// Entity lookup by key for the user entity that this subgraph extends.
    pub fn find_user_by_id(&self, id: String) -> (r: User)
        ensures
            r.id == id,
    {
        User { id }
    }

    /// The product with identifier `id`, or `None` when the catalogue has no
    /// such product, which the GraphQL layer reports as a field error.
    pub fn product(&self, id: &str) -> (r: Option<Product>)
        ensures
            r is None <==> !in_catalogue(id@),
            r matches Some(p) ==> product_table().contains(p@) && p.id@ == id@,
    {
        let table = products();
        let r = find_by_id(&table, id);
        proof {
            if r is None {
                assert forall|i: int| 0 <= i < product_table().len() implies #[trigger] product_table()[i].0 != id@ by {
                    assert(product_table()[i] == products_view(table@)[i]);
                }
            } else {
                let p = r->Some_0;
                let i = choose|i: int| 0 <= i < table@.len() && (#[trigger] table@[i])@ == p@ && p.id@ == id@;
                assert(product_table()[i] == p@);
                assert(in_catalogue(id@));
            }
            if in_catalogue(id@) {
                let i = choose|i: int| 0 <= i < product_table().len() && (#[trigger] product_table()[i]).0 == id@;
                assert(table@[i]@ == product_table()[i]);
            }
        }
        r
    }

    /// The whole catalogue.
    pub fn products(&self) -> (r: Vec<Product>)
        ensures
            products_view(r@) == product_table(),
    {
        products()
    }
}

} // verus!
