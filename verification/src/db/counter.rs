use vstd::arithmetic::div_mod::{
    lemma_fundamental_div_mod, lemma_fundamental_div_mod_converse, lemma_mod_bound,
};
use vstd::prelude::*;

verus! {

/// The kinds of records whose ids are handed out by a [`Counter`].
#[derive(Clone, Copy, Debug, PartialEq, Eq, Structural)]
pub enum CounterType {
    Position,
    Price,
    Balance,
}

/// The id that follows `counter` for a counter that wraps at `max`:
/// `(counter + 1) mod (max + 1)`, where 0 is skipped and becomes 1.
pub open spec fn next_counter_id(counter: int, max: int) -> int {
    let id = (counter + 1) % (max + 1);
    if id == 0 {
        1
    } else {
        id
    }
}

/// One wrapping counter: its upper bound and the last id it handed out.
pub struct CounterData {
    max: u32,
    counter: u32,
}

impl CounterData {
    /// The largest id this counter hands out.
    pub closed spec fn spec_max(&self) -> u32 {
        self.max
    }

    /// The last id handed out (or the starting value).
    pub closed spec fn spec_counter(&self) -> u32 {
        self.counter
    }

    /// Whether the next increment stays clear of `u32` overflow.
    pub open spec fn can_increment(&self) -> bool {
        self.spec_counter() < u32::MAX && self.spec_max() < u32::MAX
    }

    fn increment(&mut self) -> (id: u32)
        requires
            old(self).can_increment(),
        ensures
            id == next_counter_id(old(self).spec_counter() as int, old(self).spec_max() as int),
            final(self).spec_counter() == id,
            final(self).spec_max() == old(self).spec_max(),
    {
        let bumped = self.counter + 1;
        let mut id = bumped % (self.max + 1);
        if id == 0 {
            id = 1;
        }
        self.counter = id;
        id
    }
}

/// Three independent wrapping counters, one for each [`CounterType`].
pub struct Counter {
    position: CounterData,
    price: CounterData,
    balance: CounterData,
}

impl Counter {
    /// The counter that belongs to `counter_type`.
    pub closed spec fn data(&self, counter_type: CounterType) -> CounterData {
        match counter_type {
            CounterType::Position => self.position,
            CounterType::Price => self.price,
            CounterType::Balance => self.balance,
        }
    }

    pub fn new(
        max_position_counter: u32,
        max_price_counter: u32,
        max_balance_counter: u32,
        position_counter: u32,
        price_counter: u32,
        balance_counter: u32,
    ) -> (result: Self)
        ensures
            result.data(CounterType::Position).spec_max() == max_position_counter,
            result.data(CounterType::Price).spec_max() == max_price_counter,
            result.data(CounterType::Balance).spec_max() == max_balance_counter,
            result.data(CounterType::Position).spec_counter() == position_counter,
            result.data(CounterType::Price).spec_counter() == price_counter,
            result.data(CounterType::Balance).spec_counter() == balance_counter,
    {
        Self {
            position: CounterData { max: max_position_counter, counter: position_counter },
            price: CounterData { max: max_price_counter, counter: price_counter },
            balance: CounterData { max: max_balance_counter, counter: balance_counter },
        }
    }

    /// Hands out the next id of the chosen counter: the counter moves to
    /// `(counter + 1) mod (max + 1)`, with 0 replaced by 1, and that value is
    /// returned. The other two counters are left as they were.
    pub fn increment(&mut self, counter_type: CounterType) -> (id: u32)
        requires
            old(self).data(counter_type).can_increment(),
        ensures
            increments(*old(self), *final(self), counter_type, id),
    {
        match counter_type {
            CounterType::Position => self.position.increment(),
            CounterType::Price => self.price.increment(),
            CounterType::Balance => self.balance.increment(),
        }
    }
}

/// `after` is `before` once `counter_type`'s counter handed out `id`: `id` is
/// the next id of that counter, the counter now stands at `id`, every maximum
/// is kept and the other counters are left as they were.
pub open spec fn increments(before: Counter, after: Counter, counter_type: CounterType, id: u32) -> bool {
    &&& id == next_counter_id(
        before.data(counter_type).spec_counter() as int,
        before.data(counter_type).spec_max() as int,
    )
    &&& after.data(counter_type).spec_counter() == id
    &&& forall|t: CounterType| #[trigger] after.data(t).spec_max() == before.data(t).spec_max()
    &&& forall|t: CounterType| t != counter_type ==> #[trigger] after.data(t) == before.data(t)
}

/// The value a counter that wraps at `max` stands at after handing out `k` ids
/// from `start`: `k` steps of [`next_counter_id`].
pub open spec fn counter_after(start: int, max: int, k: nat) -> int
    decreases k,
{
    if k == 0 {
        start
    } else {
        next_counter_id(counter_after(start, max, (k - 1) as nat), max)
    }
}

/// The ids a counter hands out from 0 run 1, 2, ..., `max`, 1, 2, ...: the
/// `k`-th id (the counter's value after `k` calls of [`Counter::increment`],
/// which moves it by one [`next_counter_id`] step each time) is
/// `((k - 1) mod max) + 1`.
pub proof fn lemma_ids_from_zero(max: int, k: nat)
    requires
        max >= 1,
        k >= 1,
    ensures
        counter_after(0, max, k) == ((k - 1) % max) + 1,
    decreases k,
{
    if k == 1 {
        assert(counter_after(0, max, 0) == 0);
        assert((0int + 1) % (max + 1) == 1) by (nonlinear_arith)
            requires
                max >= 1,
        ;
        assert(0int % max == 0) by (nonlinear_arith)
            requires
                max >= 1,
        ;
    } else {
        let j = (k - 1) as nat;
        lemma_ids_from_zero(max, j);
        let r = (j - 1) % max;
        let q = (j - 1) / max;
        lemma_fundamental_div_mod(j - 1, max);
        assert(0 <= r < max) by {
            lemma_mod_bound(j - 1, max);
        }
        lemma_counter_cycles(r + 1, max);
        if r + 1 < max {
            assert(j == q * max + (r + 1));
            lemma_fundamental_div_mod_converse(j as int, max, q, r + 1);
        } else {
            assert(j == (q + 1) * max + 0) by (nonlinear_arith)
                requires
                    j - 1 == max * q + r,
                    r + 1 == max,
            ;
            lemma_fundamental_div_mod_converse(j as int, max, q + 1, 0);
        }
    }
}

/// Each call of [`Counter::increment`] moves its counter one step along
/// [`counter_after`]: a counter that stood at the `k`-th value from `start`
/// hands out, and then stands at, the `(k + 1)`-th.
pub proof fn lemma_increment_steps(
    before: Counter,
    after: Counter,
    counter_type: CounterType,
    id: u32,
    start: int,
    k: nat,
)
    requires
        increments(before, after, counter_type, id),
        before.data(counter_type).spec_counter() == counter_after(start, before.data(counter_type).spec_max() as int, k),
    ensures
        id == counter_after(start, before.data(counter_type).spec_max() as int, k + 1),
        after.data(counter_type).spec_counter() == counter_after(start, after.data(counter_type).spec_max() as int, k + 1),
{
}

/// Handing out an id of one kind never changes what the next call for another
/// kind returns, nor any maximum.
pub proof fn lemma_kinds_are_independent(
    before: Counter,
    after: Counter,
    first: CounterType,
    id: u32,
    second: CounterType,
)
    requires
        increments(before, after, first, id),
        first != second,
    ensures
        next_counter_id(after.data(second).spec_counter() as int, after.data(second).spec_max() as int)
            == next_counter_id(before.data(second).spec_counter() as int, before.data(second).spec_max() as int),
        after.data(second).can_increment() == before.data(second).can_increment(),
        forall|t: CounterType| #[trigger] after.data(t).spec_max() == before.data(t).spec_max(),
{
    assert(after.data(second) == before.data(second));
}

/// Every id a counter hands out lies in `1..=max` (in `1..=1` when `max` is 0).
pub proof fn lemma_counter_id_in_range(counter: int, max: int)
    requires
        counter >= 0,
        max >= 0,
    ensures
        1 <= next_counter_id(counter, max),
        max >= 1 ==> next_counter_id(counter, max) <= max,
        max == 0 ==> next_counter_id(counter, max) == 1,
{
}

/// Started inside `1..=max`, the counter walks up by one and wraps from `max`
/// back to 1.
pub proof fn lemma_counter_cycles(counter: int, max: int)
    requires
        1 <= counter <= max,
    ensures
        counter < max ==> next_counter_id(counter, max) == counter + 1,
        counter == max ==> next_counter_id(counter, max) == 1,
{
    if counter < max {
        assert((counter + 1) % (max + 1) == counter + 1) by (nonlinear_arith)
            requires
                0 <= counter + 1 < max + 1,
        ;
    } else {
        assert((max + 1) % (max + 1) == 0) by (nonlinear_arith)
            requires
                max + 1 > 0,
        ;
    }
}

/// Once a counter has handed out an id, it can always hand out the next one:
/// the stored id never reaches `u32::MAX` while `max` stays below it.
pub proof fn lemma_counter_stays_incrementable(counter: int, max: int)
    requires
        counter >= 0,
        0 <= max < u32::MAX,
    ensures
        next_counter_id(counter, max) < u32::MAX,
{
    lemma_counter_id_in_range(counter, max);
}

} // verus!
