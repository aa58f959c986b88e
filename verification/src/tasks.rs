//! The two practical tasks: aggregate statistics over a list of
//! product records, and a Fibonacci generator consumed by prefix.

use vstd::prelude::*;

verus! {

/// A product record is expensive when its price is strictly above this
/// many cents (100 units of currency).
pub const EXPENSIVE_THRESHOLD_CENTS: u64 = 10000;

/// An immutable record of a priced, stock-flagged item. The price is
/// held exactly, in cents.
#[derive(Debug)]
pub struct Product {
    pub name: String,
    pub price_cents: u64,
    pub in_stock: bool,
}

/// The sum of the prices of `s`, in cents, added left to right.
pub open spec fn total_price(s: Seq<Product>) -> int
    decreases s.len(),
{
    if s.len() == 0 {
        0
    } else {
        total_price(s.drop_last()) + s.last().price_cents
    }
}

/// A prefix of a product list never sums to more than the whole list.
proof fn lemma_total_price_prefix(s: Seq<Product>, k: int)
    requires
        0 <= k <= s.len(),
    ensures
        total_price(s.take(k)) <= total_price(s),
    decreases s.len(),
{
    if k < s.len() {
        assert(s.drop_last().take(k) =~= s.take(k));
        lemma_total_price_prefix(s.drop_last(), k);
    } else {
        assert(s.take(k) =~= s);
    }
}

/// Scans `products` once and returns the total price in cents, the
/// count of records in stock, and references to the records priced
/// strictly above [`EXPENSIVE_THRESHOLD_CENTS`], in their original
/// order. The average price is the returned total divided by the
/// length of the input, and is taken as zero for an empty input.
pub fn analyze_products(products: &Vec<Product>) -> (r: (u64, usize, Vec<&Product>))
    requires
        total_price(products@) <= u64::MAX,
    ensures
        r.0 == total_price(products@),
        r.1 == products@.filter(|p: Product| p.in_stock).len(),
        r.2@.map_values(|p: &Product| *p) == products@.filter(
            |p: Product| p.price_cents > EXPENSIVE_THRESHOLD_CENTS,
        ),
{
    let mut total: u64 = 0;
    let mut available: usize = 0;
    let mut expensive: Vec<&Product> = Vec::new();
    let mut k: usize = 0;
    proof {
        assert(products@.take(0) =~= Seq::<Product>::empty());
        reveal(Seq::filter);
    }
    while k < products.len()
        invariant
            k <= products@.len(),
            total_price(products@) <= u64::MAX,
            total == total_price(products@.take(k as int)),
            available == products@.take(k as int).filter(|p: Product| p.in_stock).len(),
            expensive@.map_values(|p: &Product| *p) == products@.take(k as int).filter(
                |p: Product| p.price_cents > EXPENSIVE_THRESHOLD_CENTS,
            ),
        decreases products@.len() - k,
    {
        let p = &products[k];
        proof {
            reveal(Seq::filter);
            assert(products@.take(k + 1).drop_last() =~= products@.take(k as int));
            assert(products@.take(k + 1).last() == products@[k as int]);
            lemma_total_price_prefix(products@, k + 1);
            products@.take(k as int).lemma_filter_len(|p: Product| p.in_stock);
        }
        total = total + p.price_cents;
        if p.in_stock {
            available = available + 1;
        }
        if p.price_cents > EXPENSIVE_THRESHOLD_CENTS {
            expensive.push(p);
        }
        proof {
            assert(expensive@.map_values(|q: &Product| *q) =~= products@.take(k + 1).filter(
                |q: Product| q.price_cents > EXPENSIVE_THRESHOLD_CENTS,
            ));
        }
        k = k + 1;
    }
    proof {
        assert(products@.take(products@.len() as int) =~= products@);
    }
    (total, available, expensive)
}

/// The Fibonacci sequence: 0, 1, 1, 2, 3, 5, ...
pub open spec fn fib(n: nat) -> nat
    decreases n,
{
    if n == 0 {
        0
    } else if n == 1 {
        1
    } else {
        fib((n - 2) as nat) + fib((n - 1) as nat)
    }
}

/// A generator that yields successive Fibonacci numbers on demand. It
/// never signals exhaustion; the consumer bounds consumption.
pub struct Fibonacci {
    curr: u64,
    next: u64,
}

impl Fibonacci {
    /// The value the next call of [`Fibonacci::next`] yields.
    pub closed spec fn spec_curr(self) -> u64 {
        self.curr
    }

    /// The value yielded one call after the next one.
    pub closed spec fn spec_next(self) -> u64 {
        self.next
    }

    /// The generator state that stands at position `n` of the
    /// sequence.
    pub open spec fn at_index(self, n: nat) -> bool {
        self.spec_curr() == fib(n) && self.spec_next() == fib(n + 1)
    }

    /// A fresh generator, positioned at the start of the sequence.
    pub fn new() -> (g: Fibonacci)
        ensures
            g.at_index(0),
    {
        Fibonacci { curr: 0, next: 1 }
    }

    /// Yields the current value and advances the state one step:
    /// (curr, next) becomes (next, curr + next). The generator never
    /// returns `None`; the wider `Option` shape only marks that a
    /// consumer is free to stop at any point.
    pub fn next(&mut self) -> (r: Option<u64>)
        requires
            old(self).spec_curr() + old(self).spec_next() <= u64::MAX,
        ensures
            r == Some(old(self).spec_curr()),
            final(self).spec_curr() == old(self).spec_next(),
            final(self).spec_next() == old(self).spec_curr() + old(self).spec_next(),
            forall|n: nat| #[trigger] old(self).at_index(n) ==> final(self).at_index(n + 1),
    {
        let new_next = self.curr + self.next;
        let result = self.curr;
        self.curr = self.next;
        self.next = new_next;
        Some(result)
    }

    /// Takes the first `count` Fibonacci numbers. When some of them do
    /// not fit in 64 bits, the result is the longest representable
    /// prefix instead, and is then strictly shorter than asked.
    pub fn first_values(count: usize) -> (v: Vec<u64>)
        ensures
            forall|i: int| 0 <= i < v@.len() ==> v@[i] == fib(i as nat),
            v@.len() <= count,
            v@.len() < count ==> fib(v@.len() as nat) > u64::MAX,
    {
        let mut v: Vec<u64> = Vec::new();
        let mut g = Fibonacci::new();
        while v.len() < count
            invariant
                v@.len() <= count,
                g.at_index(v@.len() as nat),
                forall|i: int| 0 <= i < v@.len() ==> v@[i] == fib(i as nat),
            decreases count - v@.len(),
        {
            match g.curr.checked_add(g.next) {
                Some(_) => {
                    let produced = g.next().unwrap();
                    v.push(produced);
                },
                None => {
                    v.push(g.curr);
                    assert(fib((v@.len() + 1) as nat) > u64::MAX);
                    if v.len() < count {
                        v.push(g.next);
                    }
                    return v;
                },
            }
        }
        v
    }
}

} // verus!
