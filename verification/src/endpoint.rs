//! Weighted selection among remote endpoints.

use rand::Rng;
use vstd::prelude::*;
use vstd::set_lib::{lemma_int_range, set_int_range};

verus! {

/// A remote target: where to send, with which credential, and how large a
/// share of the requests it is to get.
#[derive(Debug, Clone)]
pub struct Endpoint {
    pub url: String,
    pub api_key: String,
    pub weight: usize,
}

/// The sum of the weights of the first `n` endpoints.
pub open spec fn weight_before(endpoints: Seq<Endpoint>, n: int) -> nat
    decreases n,
{
    if n <= 0 {
        0
    } else {
        weight_before(endpoints, n - 1) + endpoints[n - 1].weight as nat
    }
}

/// The sum of all weights.
pub open spec fn total_weight(endpoints: Seq<Endpoint>) -> nat {
    weight_before(endpoints, endpoints.len() as int)
}

/// Whether `draw` falls to endpoint `i`: the endpoints share out the numbers
/// from 0 up to the total weight, each taking as many as its weight, in the
/// order of the list.
pub open spec fn selects(endpoints: Seq<Endpoint>, draw: int, i: int) -> bool {
    &&& 0 <= i < endpoints.len()
    &&& weight_before(endpoints, i) <= draw < weight_before(endpoints, i + 1)
}

/// The weight of a shorter prefix is no larger.
pub proof fn lemma_weight_before_monotonic(endpoints: Seq<Endpoint>, m: int, n: int)
    requires
        m <= n,
    ensures
        weight_before(endpoints, m) <= weight_before(endpoints, n),
    decreases n - m,
{
    if m < n {
        lemma_weight_before_monotonic(endpoints, m, n - 1);
    }
}

/// A draw falls to at most one endpoint.
pub proof fn lemma_selects_unique(endpoints: Seq<Endpoint>, draw: int, i: int, j: int)
    requires
        selects(endpoints, draw, i),
        selects(endpoints, draw, j),
    ensures
        i == j,
{
    if i < j {
        lemma_weight_before_monotonic(endpoints, i + 1, j);
    } else if j < i {
        lemma_weight_before_monotonic(endpoints, j + 1, i);
    }
}

/// Every draw below the weight of the first `n` endpoints falls to one of
/// them.
pub proof fn lemma_selects_among_first(endpoints: Seq<Endpoint>, draw: int, n: int)
    requires
        0 <= n <= endpoints.len(),
        0 <= draw < weight_before(endpoints, n),
    ensures
        exists|i: int| 0 <= i < n && selects(endpoints, draw, i),
    decreases n,
{
    if draw < weight_before(endpoints, n - 1) {
        lemma_selects_among_first(endpoints, draw, n - 1);
        let i = choose|i: int| 0 <= i < n - 1 && selects(endpoints, draw, i);
        assert(0 <= i < n && selects(endpoints, draw, i));
    } else {
        assert(selects(endpoints, draw, n - 1));
    }
}

/// Every draw from 0 up to the total weight falls to exactly one endpoint,
/// and that endpoint has a weight above 0.
pub proof fn lemma_draw_selects_one(endpoints: Seq<Endpoint>, draw: int)
    requires
        0 <= draw < total_weight(endpoints),
    ensures
        exists|i: int| selects(endpoints, draw, i),
        forall|i: int, j: int|
            selects(endpoints, draw, i) && selects(endpoints, draw, j) ==> i == j,
        forall|i: int| selects(endpoints, draw, i) ==> endpoints[i].weight > 0,
{
    lemma_selects_among_first(endpoints, draw, endpoints.len() as int);
    assert forall|i: int, j: int|
        selects(endpoints, draw, i) && selects(endpoints, draw, j) implies i == j by {
        lemma_selects_unique(endpoints, draw, i, j);
    }
}

/// Of the draws from 0 up to the total weight, exactly as many fall to an
/// endpoint as its weight is: an endpoint of weight 0 gets none, and with
/// every draw equally likely an endpoint is chosen in proportion to its
/// weight.
pub proof fn lemma_share_of_draws(endpoints: Seq<Endpoint>, i: int)
    requires
        0 <= i < endpoints.len(),
    ensures
        Set::new(|draw: int| selects(endpoints, draw, i)).finite(),
        Set::new(|draw: int| selects(endpoints, draw, i)).len() == endpoints[i].weight,
        forall|draw: int| selects(endpoints, draw, i) ==> 0 <= draw < total_weight(endpoints),
{
    let lo = weight_before(endpoints, i) as int;
    let hi = weight_before(endpoints, i + 1) as int;
    lemma_int_range(lo, hi);
    assert(Set::new(|draw: int| selects(endpoints, draw, i)) =~= set_int_range(lo, hi));
    lemma_weight_before_monotonic(endpoints, i + 1, endpoints.len() as int);
}

/// The sum of all weights, or `None` where it does not fit in a `usize`.
pub fn checked_total_weight(endpoints: &[Endpoint]) -> (r: Option<usize>)
    ensures
        match r {
            Some(total) => total == total_weight(endpoints@),
            None => total_weight(endpoints@) > usize::MAX,
        },
{
    let mut total: usize = 0;
    let mut i: usize = 0;
    while i < endpoints.len()
        invariant
            i <= endpoints@.len(),
            total == weight_before(endpoints@, i as int),
        decreases endpoints@.len() - i,
    {
        match total.checked_add(endpoints[i].weight) {
            Some(sum) => {
                total = sum;
            },
            None => {
                proof {
                    lemma_weight_before_monotonic(
                        endpoints@,
                        i as int + 1,
                        endpoints@.len() as int,
                    );
                }
                return None;
            },
        }
        i = i + 1;
    }
    Some(total)
}

/// The index of the endpoint that `draw` falls to; the first endpoint where
/// it falls to none, which is so exactly for a draw that is not below the
/// total weight.
pub fn pick_endpoint(endpoints: &[Endpoint], draw: usize) -> (i: usize)
    requires
        endpoints@.len() > 0,
    ensures
        i < endpoints@.len(),
        draw < total_weight(endpoints@) ==> selects(endpoints@, draw as int, i as int),
        draw >= total_weight(endpoints@) ==> i == 0,
{
    let mut rest: usize = draw;
    let mut i: usize = 0;
    while i < endpoints.len()
        invariant
            i <= endpoints@.len(),
            rest + weight_before(endpoints@, i as int) == draw,
        decreases endpoints@.len() - i,
    {
        if rest < endpoints[i].weight {
            proof {
                lemma_weight_before_monotonic(endpoints@, i as int + 1, endpoints@.len() as int);
            }
            return i;
        }
        rest = rest - endpoints[i].weight;
        i = i + 1;
    }
    0
}

/// Calls `gen_range` on `rand::thread_rng()` with the range from 0 up to, and
/// without, `bound`. Claimed: the number returned lies in that range.
/// `gen_range` panics on an empty range, which `requires` leaves out.
#[verifier::external_body]
fn random_below(bound: usize) -> (r: usize)
    requires
        bound > 0,
    ensures
        r < bound,
{
    rand::thread_rng().gen_range(0..bound)
}

/// Picks an endpoint at random, each in proportion to its weight: a number
/// is drawn from 0 up to the total weight, and the endpoint that it falls to
/// is returned. An endpoint of weight 0 is never returned.
pub fn select_endpoint(endpoints: &[Endpoint]) -> (r: &Endpoint)
    requires
        endpoints@.len() > 0,
        0 < total_weight(endpoints@) <= usize::MAX,
    ensures
        r.weight > 0,
        exists|i: int, draw: int|
            0 <= draw < total_weight(endpoints@) && #[trigger] selects(endpoints@, draw, i) && *r
                == endpoints@[i],
{
    let total = checked_total_weight(endpoints).unwrap();
    let draw = random_below(total);
    let i = pick_endpoint(endpoints, draw);
    assert(selects(endpoints@, draw as int, i as int));
    &endpoints[i]
}

} // verus!
