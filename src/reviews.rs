//! The reviews subgraph: a fixed list of reviews, and the review lists that
//! extend the users and products of the other subgraphs.
use vstd::prelude::*;

verus! {

/// The user entity, extended here with the reviews the user wrote.
pub struct User {
    pub id: String,
}

/// The product entity, extended here with the reviews it received.
pub struct Product {
    pub id: String,
}

/// A review: who wrote it, and of which product.
pub struct Review {
    pub id: String,
    pub body: String,
    pub author: User,
    pub product: Product,
}

/// A review as (identifier, body, author identifier, product identifier).
pub type ReviewRow = (Seq<char>, Seq<char>, Seq<char>, Seq<char>);

impl View for Review {
    type V = ReviewRow;

    open spec fn view(&self) -> ReviewRow {
        (self.id@, self.body@, self.author.id@, self.product.id@)
    }
}

impl Clone for Review {
    fn clone(&self) -> (r: Review)
        ensures
            r@ == self@,
    {
        Review {
            id: self.id.clone(),
            body: self.body.clone(),
            author: User { id: self.author.id.clone() },
            product: Product { id: self.product.id.clone() },
        }
    }
}

/// Every review, in order. Two of them share an identifier.
pub open spec fn review_table() -> Seq<ReviewRow> {
    seq![
        ("1"@, "Amazing avocado plushie!"@, "1"@, "1"@),
        ("1"@, "Cool carrot stick"@, "1"@, "2"@),
        ("2"@, "Never slept better than with the tomato pillow"@, "2"@, "3"@),
        ("3"@, "The pumpkin is very snug!"@, "2"@, "4"@),
        ("4"@, "Love the plushie!"@, "3"@, "1"@),
    ]
}

/// The view of a list of reviews.
pub open spec fn reviews_view(v: Seq<Review>) -> Seq<ReviewRow> {
    v.map_values(|r: Review| r@)
}

/// Which identifier of a review a selection looks at.
pub enum Key {
    Review,
    Author,
    Product,
}

/// The identifier of `row` that `key` names.
pub open spec fn key_of(row: ReviewRow, key: Key) -> Seq<char> {
    match key {
        Key::Review => row.0,
        Key::Author => row.2,
        Key::Product => row.3,
    }
}

/// The rows of `rows` whose identifier named by `key` is `id`, in order.
pub open spec fn selected(rows: Seq<ReviewRow>, key: Key, id: Seq<char>) -> Seq<ReviewRow> {
    rows.filter(|row: ReviewRow| key_of(row, key) == id)
}

fn review(id: &str, body: &str, author: &str, product: &str) -> (r: Review)
    ensures
        r@ == (id@, body@, author@, product@),
{
    Review {
        id: String::from_str(id),
        body: String::from_str(body),
        author: User { id: String::from_str(author) },
        product: Product { id: String::from_str(product) },
    }
}

/// Every review, in order.
pub fn reviews() -> (r: Vec<Review>)
    ensures
        reviews_view(r@) == review_table(),
{
    let mut v: Vec<Review> = Vec::new();
    v.push(review("1", "Amazing avocado plushie!", "1", "1"));
    v.push(review("1", "Cool carrot stick", "1", "2"));
    v.push(review("2", "Never slept better than with the tomato pillow", "2", "3"));
    v.push(review("3", "The pumpkin is very snug!", "2", "4"));
    v.push(review("4", "Love the plushie!", "3", "1"));
    assert(reviews_view(v@) =~= review_table());
    v
}

fn key_value<'a>(r: &'a Review, key: &Key) -> (s: &'a String)
    ensures
        s@ == key_of(r@, *key),
{
    match key {
        Key::Review => &r.id,
        Key::Author => &r.author.id,
        Key::Product => &r.product.id,
    }
}

/// The reviews of `table` whose identifier named by `key` is `id`, in order.
fn select(table: &Vec<Review>, key: Key, id: &String) -> (r: Vec<Review>)
    ensures
        reviews_view(r@) == selected(reviews_view(table@), key, id@),
{
    let ghost rows = reviews_view(table@);
    let ghost pred = |row: ReviewRow| key_of(row, key) == id@;
    let mut out: Vec<Review> = Vec::new();
    let mut k: usize = 0;
    while k < table.len()
        invariant
            k <= table@.len(),
            rows == reviews_view(table@),
            pred == (|row: ReviewRow| key_of(row, key) == id@),
            reviews_view(out@) == rows.take(k as int).filter(pred),
        decreases table.len() - k,
    {
        let ghost before = out@;
        assert(rows.take(k + 1) =~= rows.take(k as int).push(rows[k as int]));
        proof {
            rows.take(k as int).lemma_filter_push(rows[k as int], pred);
        }
        if *key_value(&table[k], &key) == *id {
            let r = table[k].clone();
            out.push(r);
            assert(reviews_view(out@) =~= reviews_view(before).push(r@));
        }
        k = k + 1;
    }
    assert(rows.take(k as int) =~= rows);
    out
}

impl User {
    /// The reviews this user wrote, in order.
    pub fn reviews(&self) -> (r: Vec<Review>)
        ensures
            reviews_view(r@) == selected(review_table(), Key::Author, self.id@),
    {
        select(&reviews(), Key::Author, &self.id)
    }
}

impl Product {
    /// The reviews this product received, in order.
    pub fn reviews(&self) -> (r: Vec<Review>)
        ensures
            reviews_view(r@) == selected(review_table(), Key::Product, self.id@),
    {
        select(&reviews(), Key::Product, &self.id)
    }
}

/// The first review with identifier `id`, if there is one.
pub open spec fn first_review(id: Seq<char>) -> Option<ReviewRow> {
    let hits = selected(review_table(), Key::Review, id);
    if hits.len() > 0 {
        Some(hits[0])
    } else {
        None
    }
}

/// The root query type of the reviews subgraph.
pub struct Query;

impl Query {
    /// Entity lookup by key: the first review with identifier `id`, or
    /// `None` when there is none, which the GraphQL layer reports as a field
    /// error.
    pub fn find_review_by_id(&self, id: &str) -> (r: Option<Review>)
        ensures
            r is None <==> first_review(id@) is None,
            r matches Some(v) ==> first_review(id@) == Some(v@),
    {
        self.review(id)
    }

    /// Entity lookup by key for the user entity that this subgraph extends.
    pub fn find_user_by_id(&self, id: String) -> (r: User)
        ensures
            r.id == id,
    {
        User { id }
    }

    /// Entity lookup by key for the product entity that this subgraph extends.
    pub fn find_product_by_id(&self, id: String) -> (r: Product)
        ensures
            r.id == id,
    {
        Product { id }
    }

    /// The first review with identifier `id`, or `None` when there is none,
    /// which the GraphQL layer reports as a field error.
    pub fn review(&self, id: &str) -> (r: Option<Review>)
        ensures
            r is None <==> first_review(id@) is None,
            r matches Some(v) ==> first_review(id@) == Some(v@),
    {
        let hits = select(&reviews(), Key::Review, &String::from_str(id));
        if hits.len() > 0 {
            Some(hits[0].clone())
        } else {
            None
        }
    }

    /// Every review, in order.
    pub fn reviews(&self) -> (r: Vec<Review>)
        ensures
            reviews_view(r@) == review_table(),
    {
        reviews()
    }
}

} // verus!
