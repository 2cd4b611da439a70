//! The query resolver: the domain operations that filter the review
//! collection by product or author, and the meta-operation that reads a
//! schema definition from the registry.
//!
//! Every domain operation is one linear scan-and-filter over the backing
//! collection, preserving the collection's order. Malformed arguments are
//! rejected before they reach this layer; any integer is a legal `upc` or
//! `author_id`, possibly matching zero records.

use vstd::prelude::*;

use crate::registry::SchemaDefinition;
use crate::registry::SchemaRegistry;
use crate::review::Review;
use crate::review::ReviewView;
use crate::review::views_of;

verus! {

/// The reviews of `s` whose `upc` equals `upc`, in the order of `s`.
pub open spec fn filter_by_upc(s: Seq<ReviewView>, upc: int) -> Seq<ReviewView> {
    s.filter(|r: ReviewView| r.upc == upc)
}

/// The reviews of `s` whose `author_id` equals `author_id`, in the order of `s`.
pub open spec fn filter_by_author(s: Seq<ReviewView>, author_id: int) -> Seq<ReviewView> {
    s.filter(|r: ReviewView| r.author_id == author_id)
}

/// Extending a scan by one review appends it to the filtered result exactly
/// when it satisfies the predicate.
proof fn lemma_filter_take_step(s: Seq<ReviewView>, pred: spec_fn(ReviewView) -> bool, i: int)
    requires
        0 <= i < s.len(),
    ensures
        s.take(i + 1).filter(pred) == if pred(s[i]) {
            s.take(i).filter(pred).push(s[i])
        } else {
            s.take(i).filter(pred)
        },
{
    reveal(Seq::filter);
    assert(s.take(i + 1).drop_last() =~= s.take(i));
    assert(s.take(i + 1).last() == s[i]);
}

/// Copies out of `collection`, in order, exactly the reviews that satisfy
/// the predicates: `by_upc` selects on the `upc` field when true and on the
/// `author_id` field when false.
fn filter_reviews(collection: &Vec<Review>, key: i32, by_upc: bool) -> (r: Vec<Review>)
    ensures
        by_upc ==> views_of(r@) == filter_by_upc(views_of(collection@), key as int),
        !by_upc ==> views_of(r@) == filter_by_author(views_of(collection@), key as int),
{
    let ghost all = views_of(collection@);
    let ghost pred = if by_upc {
        |r: ReviewView| r.upc == key as int
    } else {
        |r: ReviewView| r.author_id == key as int
    };
    let mut r: Vec<Review> = Vec::new();
    let mut i: usize = 0;
    while i < collection.len()
        invariant
            i <= collection@.len(),
            all == views_of(collection@),
            pred == (if by_upc {
                |r: ReviewView| r.upc == key as int
            } else {
                |r: ReviewView| r.author_id == key as int
            }),
            views_of(r@) == all.take(i as int).filter(pred),
        decreases collection@.len() - i,
    {
        let matched = if by_upc {
            collection[i].upc == key
        } else {
            collection[i].author_id == key
        };
        proof {
            lemma_filter_take_step(all, pred, i as int);
            assert(all[i as int] == collection@[i as int]@);
        }
        if matched {
            let ghost prior = r@;
            r.push(collection[i].duplicate());
            proof {
                assert(views_of(r@) =~= views_of(prior).push(collection@[i as int]@));
            }
        }
        i = i + 1;
    }
    proof {
        assert(all.take(collection@.len() as int) =~= all);
    }
    r
}

/// The root of query resolution: the exposed domain operations and the
/// schema meta-operation. The review collection and the schema registry are
/// supplied by the caller, so the resolver owns no state of its own.
pub struct Query;

impl Query {
    /// Returns every review in `collection` whose `upc` equals the argument,
    /// preserving the collection's order. No matches yields an empty
    /// collection, not an error.
    pub fn reviews(&self, collection: &Vec<Review>, upc: i32) -> (r: Vec<Review>)
        ensures
            views_of(r@) == filter_by_upc(views_of(collection@), upc as int),
    {
        filter_reviews(collection, upc, true)
    }

    /// Returns every review in `collection` whose `author_id` equals the
    /// argument, preserving the collection's order.
    pub fn reviews_by_author(&self, collection: &Vec<Review>, author_id: i32) -> (r: Vec<Review>)
        ensures
            views_of(r@) == filter_by_author(views_of(collection@), author_id as int),
    {
        filter_reviews(collection, author_id, false)
    }

    /// Returns every review in `collection` whose `upc` equals the argument.
    /// Behaviorally identical to `reviews`: federation conventions expose
    /// both a generic and a semantically named accessor.
    pub fn reviews_by_product(&self, collection: &Vec<Review>, upc: i32) -> (r: Vec<Review>)
        ensures
            views_of(r@) == filter_by_upc(views_of(collection@), upc as int),
    {
        filter_reviews(collection, upc, true)
    }

    /// Returns a copy of the schema definition registered under
    /// `configuration`, or `None` when no definition was registered under
    /// that name. Delegates directly to the registry lookup; a miss becomes
    /// an absent field in the response, never a request failure.
    pub fn schema_definition(&self, registry: &SchemaRegistry, configuration: &String) -> (r:
        Option<SchemaDefinition>)
        ensures
            r.deep_view() == crate::registry::lookup_spec(registry@, configuration@),
            match r {
                Some(d) => registry@.contains_key(configuration@) && d@
                    == registry@[configuration@],
                None => !registry@.contains_key(configuration@),
            },
    {
        registry.lookup(configuration)
    }
}

/// Law: `reviews` and `reviews_by_product` agree. Any two results the two
/// operations may return for the same collection and the same `upc` model
/// the same sequence of reviews: the same elements in the same order.
pub proof fn lemma_reviews_by_product_agrees_with_reviews(
    q1: Query,
    q2: Query,
    collection: Vec<Review>,
    upc: i32,
    r1: Vec<Review>,
    r2: Vec<Review>,
)
    requires
        call_ensures(Query::reviews, (&q1, &collection, upc), r1),
        call_ensures(Query::reviews_by_product, (&q2, &collection, upc), r2),
    ensures
        views_of(r1@) == views_of(r2@),
{
}

/// Law: every review of the collection appears in the result of filtering
/// the collection by that review's own `upc`.
pub proof fn lemma_reviews_includes_each_review(s: Seq<ReviewView>, i: int)
    requires
        0 <= i < s.len(),
    ensures
        filter_by_upc(s, s[i].upc).contains(s[i]),
{
    s.lemma_filter_contains(|r: ReviewView| r.upc == s[i].upc, i);
}

/// Filtering a sequence none of whose elements satisfies the predicate
/// yields the empty sequence.
proof fn lemma_filter_none(s: Seq<ReviewView>, pred: spec_fn(ReviewView) -> bool)
    requires
        forall|i: int| 0 <= i < s.len() ==> !pred(s[i]),
    ensures
        s.filter(pred) == Seq::<ReviewView>::empty(),
    decreases s.len(),
{
    reveal(Seq::filter);
    if s.len() > 0 {
        assert(forall|i: int| 0 <= i < s.drop_last().len() ==> s.drop_last()[i] == s[i]);
        lemma_filter_none(s.drop_last(), pred);
    }
    assert(s.filter(pred) =~= Seq::<ReviewView>::empty());
}

/// Law: filtering by a `upc` that no review of the collection carries yields
/// the empty sequence.
pub proof fn lemma_reviews_empty_for_absent_upc(s: Seq<ReviewView>, upc: int)
    requires
        forall|i: int| 0 <= i < s.len() ==> s[i].upc != upc,
    ensures
        filter_by_upc(s, upc) == Seq::<ReviewView>::empty(),
{
    lemma_filter_none(s, |r: ReviewView| r.upc == upc);
}

/// Law: filtering by an `author_id` that no review of the collection carries
/// yields the empty sequence.
pub proof fn lemma_reviews_empty_for_absent_author(s: Seq<ReviewView>, author_id: int)
    requires
        forall|i: int| 0 <= i < s.len() ==> s[i].author_id != author_id,
    ensures
        filter_by_author(s, author_id) == Seq::<ReviewView>::empty(),
{
    lemma_filter_none(s, |r: ReviewView| r.author_id == author_id);
}

} // verus!
