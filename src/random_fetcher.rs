use crate::scheduled_stream::Fetcher;
use rand::rngs::ThreadRng;
use rand::Rng;
use std::convert::Infallible;
use vstd::prelude::*;
use vstd::string::StringExecFns;

verus! {

/// rand's ThreadRng, carried through opaque.
#[verifier::external_type_specification]
#[verifier::external_body]
pub struct ExThreadRng(ThreadRng);

/// Relies on rand::thread_rng: a handle to the generator of the current
/// thread, seeded by the system. Nothing is promised of its values.
pub assume_specification[ rand::thread_rng ]() -> ThreadRng;

/// Relies on rand's Rng::gen_range over `0..bound`: a value drawn uniformly
/// from that range, which must not be empty (gen_range panics on an empty one).
#[verifier::external_body]
fn draw_below(rng: &mut ThreadRng, bound: u16) -> (r: u16)
    requires
        bound > 0,
    ensures
        r < bound,
{
    rng.gen_range(0..bound)
}

/// The character of the decimal digit `d`.
pub open spec fn digit_char(d: nat) -> char {
    seq!['0', '1', '2', '3', '4', '5', '6', '7', '8', '9'][d as int]
}

/// The decimal text of `n`, without leading zeros.
pub open spec fn decimal(n: nat) -> Seq<char>
    decreases n,
{
    if n < 10 {
        seq![digit_char(n)]
    } else {
        decimal(n / 10).push(digit_char(n % 10))
    }
}

/// Whether `s` is the decimal text of a number below `bound`.
pub open spec fn is_number_below(s: Seq<char>, bound: nat) -> bool {
    exists|k: nat| k < bound && s == #[trigger] decimal(k)
}

fn digit_text(d: u16) -> (r: &'static str)
    requires
        d < 10,
    ensures
        r@ == seq![digit_char(d as nat)],
{
    proof {
        reveal_strlit("0");
        reveal_strlit("1");
        reveal_strlit("2");
        reveal_strlit("3");
        reveal_strlit("4");
        reveal_strlit("5");
        reveal_strlit("6");
        reveal_strlit("7");
        reveal_strlit("8");
        reveal_strlit("9");
    }
    if d == 0 {
        "0"
    } else if d == 1 {
        "1"
    } else if d == 2 {
        "2"
    } else if d == 3 {
        "3"
    } else if d == 4 {
        "4"
    } else if d == 5 {
        "5"
    } else if d == 6 {
        "6"
    } else if d == 7 {
        "7"
    } else if d == 8 {
        "8"
    } else {
        "9"
    }
}

/// The decimal text of `n`.
fn decimal_string(n: u16) -> (r: String)
    ensures
        r@ == decimal(n as nat),
    decreases n,
{
    if n < 10 {
        String::from_str(digit_text(n))
    } else {
        let mut s = decimal_string(n / 10);
        s.append(digit_text(n % 10));
        s
    }
}

/// The batch for the numbers drawn: each as decimal text, in the order drawn.
pub fn batch_from_draws(draws: &Vec<u16>) -> (r: Vec<String>)
    ensures
        r@.len() == draws@.len(),
        forall|i: int| 0 <= i < draws@.len() ==> #[trigger] r@[i]@ == decimal(draws@[i] as nat),
{
    let mut batch: Vec<String> = Vec::new();
    for i in 0..draws.len()
        invariant
            batch@.len() == i,
            forall|j: int| 0 <= j < i ==> #[trigger] batch@[j]@ == decimal(draws@[j] as nat),
    {
        batch.push(decimal_string(draws[i]));
    }
    batch
}

/// A producer of batches of random numbers, as decimal text: each batch holds
/// fewer than `max_batch` items, each below `max_number`.
pub struct RandomFetcher {
    max_batch: u16,
    max_number: u16,
}

impl RandomFetcher {
    /// A batch size has to be drawable, and so does a number whenever a batch
    /// can hold one.
    #[verifier::type_invariant]
    spec fn bounds_drawable(self) -> bool {
        &&& self.max_batch > 0
        &&& self.max_batch > 1 ==> self.max_number > 0
    }

    pub closed spec fn spec_max_batch(&self) -> u16 {
        self.max_batch
    }

    pub closed spec fn spec_max_number(&self) -> u16 {
        self.max_number
    }

    pub fn new(max_batch: u16, max_number: u16) -> (r: Self)
        requires
            max_batch > 0,
            max_batch > 1 ==> max_number > 0,
        ensures
            r.spec_max_batch() == max_batch,
            r.spec_max_number() == max_number,
    {
        RandomFetcher { max_batch, max_number }
    }

    pub fn max_batch(&self) -> (r: u16)
        ensures
            r == self.spec_max_batch(),
    {
        self.max_batch
    }

    pub fn max_number(&self) -> (r: u16)
        ensures
            r == self.spec_max_number(),
    {
        self.max_number
    }
}

impl Fetcher<String, Infallible> for RandomFetcher {
    /// Never fails: draws a batch size below `max_batch`, then that many
    /// numbers below `max_number`, and turns them into text with
    /// `batch_from_draws`.
    fn fetch(&mut self) -> (r: Result<Vec<String>, Infallible>)
        ensures
            *final(self) == *old(self),
            r is Ok,
            r matches Ok(batch) && batch@.len() < old(self).spec_max_batch() && forall|i: int|
                0 <= i < batch@.len() ==> is_number_below(
                    #[trigger] batch@[i]@,
                    old(self).spec_max_number() as nat,
                ),
    {
        proof {
            use_type_invariant(&*self);
        }
        let max_batch = self.max_batch;
        let max_number = self.max_number;
        let mut rng = rand::thread_rng();
        let limit = draw_below(&mut rng, max_batch);
        let mut draws: Vec<u16> = Vec::new();
        for _i in 0..limit
            invariant
                limit < max_batch,
                max_batch > 1 ==> max_number > 0,
                draws@.len() == _i,
                forall|j: int| 0 <= j < draws@.len() ==> #[trigger] draws@[j] < max_number,
        {
            draws.push(draw_below(&mut rng, max_number));
        }
        let batch = batch_from_draws(&draws);
        assert forall|i: int| 0 <= i < batch@.len() implies is_number_below(
            #[trigger] batch@[i]@,
            max_number as nat,
        ) by {
            assert(batch@[i]@ == decimal(draws@[i] as nat));
        }
        Ok(batch)
    }
}

} // verus!
