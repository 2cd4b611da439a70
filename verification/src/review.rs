//! The `Review` domain record and the backing collection of reviews.
//!
//! A review is immutable once created. The backing collection here is a
//! fixed in-memory list standing in for a real data source; the resolver
//! operations take the collection as an argument, so they work over any
//! review collection.

use vstd::prelude::*;

verus! {

/// The mathematical model of a review: integer identity, author and product
/// references, and the review text as a sequence of characters.
pub struct ReviewView {
    pub id: int,
    pub author_id: int,
    pub upc: int,
    pub body: Seq<char>,
}

/// A domain record: `id` is a unique identity, `author_id` and `upc` are
/// foreign references (not validated here), `body` is the review text.
pub struct Review {
    pub id: i32,
    pub author_id: i32,
    pub upc: i32,
    pub body: String,
}

impl View for Review {
    type V = ReviewView;

    open spec fn view(&self) -> ReviewView {
        ReviewView {
            id: self.id as int,
            author_id: self.author_id as int,
            upc: self.upc as int,
            body: self.body@,
        }
    }
}

impl Review {
    /// Returns a copy of this review, equal to it in every field.
    pub fn duplicate(&self) -> (r: Review)
        ensures
            r@ == self@,
    {
        Review {
            id: self.id,
            author_id: self.author_id,
            upc: self.upc,
            body: self.body.clone(),
        }
    }
}

/// The models of the reviews in a collection, in collection order.
pub open spec fn views_of(s: Seq<Review>) -> Seq<ReviewView> {
    s.map_values(|r: Review| r@)
}

/// The fixed backing data set, as a mathematical sequence.
pub open spec fn backing_reviews() -> Seq<ReviewView> {
    seq![
        ReviewView { id: 1, author_id: 1, upc: 1, body: "Love it!"@ },
        ReviewView { id: 2, author_id: 1, upc: 2, body: "Too expensive."@ },
        ReviewView { id: 3, author_id: 2, upc: 3, body: "Could be better."@ },
        ReviewView { id: 4, author_id: 2, upc: 1, body: "Prefer something else."@ },
    ]
}

/// Builds the fixed backing collection of reviews.
pub fn get_reviews() -> (r: Vec<Review>)
    ensures
        views_of(r@) == backing_reviews(),
{
    let mut r: Vec<Review> = Vec::new();
    r.push(Review { id: 1, author_id: 1, upc: 1, body: "Love it!".to_owned() });
    r.push(Review { id: 2, author_id: 1, upc: 2, body: "Too expensive.".to_owned() });
    r.push(Review { id: 3, author_id: 2, upc: 3, body: "Could be better.".to_owned() });
    r.push(Review { id: 4, author_id: 2, upc: 1, body: "Prefer something else.".to_owned() });
    proof {
        assert(views_of(r@) =~= backing_reviews());
    }
    r
}

} // verus!
