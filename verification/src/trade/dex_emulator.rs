use vstd::prelude::*;

use crate::decimal::{
    checked_add, checked_mul, checked_sub, dec, decimal_difference, decimal_product, decimal_sum,
    decimal_truncated, is_valid_decimal, less_than, truncate_dp, value_lt, DecimalOverflow,
    DecimalValue,
};
use crate::number_text::{integer_from_text, parse_integer};
use crate::trade::fund_manager::OrderSide;

verus! {

/// An order resting in the emulated book: its limit price (none for a market
/// order), the size still open, its id, and whether it was already partly filled.
#[derive(Clone, Copy, Debug, PartialEq, Eq, Structural)]
pub struct OrderBook {
    pub price: Option<DecimalValue>,
    pub size: DecimalValue,
    pub order_id: u32,
    pub partially_filled: bool,
}

/// A fill reported by the emulator: order id, filled size, fill price and side.
pub type Fill = (u32, DecimalValue, DecimalValue, OrderSide);

/// The two random numbers in `[0, 1)` that decide how one order fills: the
/// order fills completely when the first is below the fill probability, and
/// otherwise by the fraction given by the second.
#[derive(Clone, Copy, Debug, PartialEq, Eq, Structural)]
pub struct FillDraw {
    pub roll: DecimalValue,
    pub fraction: DecimalValue,
}

/// The market conditions of one pass over a side of the book.
#[derive(Clone, Copy, Debug, PartialEq, Eq, Structural)]
pub struct FillContext {
    pub current_price: DecimalValue,
    pub is_buy_order: bool,
    pub filled_probability: DecimalValue,
    pub slippage: DecimalValue,
}

/// All the numbers of an order and of the context can be held by rust_decimal.
pub open spec fn order_is_valid(o: OrderBook) -> bool {
    is_valid_decimal(o.size) && (o.price matches Some(p) ==> is_valid_decimal(p))
}

pub open spec fn context_is_valid(c: FillContext) -> bool {
    &&& is_valid_decimal(c.current_price)
    &&& is_valid_decimal(c.filled_probability)
    &&& is_valid_decimal(c.slippage)
}

pub open spec fn draw_is_valid(d: FillDraw) -> bool {
    is_valid_decimal(d.roll) && is_valid_decimal(d.fraction)
}

/// The negation of a decimal.
pub open spec fn negated(a: DecimalValue) -> DecimalValue {
    DecimalValue { mantissa: (-a.mantissa) as i128, scale: a.scale }
}

/// What happens to one order in a pass: the order afterwards (`None` when it is
/// used up and leaves the book) and its fill, if any; `None` where rust_decimal
/// overflows. The size that fills is the whole open size for an order already
/// partly filled or whose roll is below the fill probability, and otherwise the
/// drawn fraction of it (the order is then partly filled). The fill price is
/// the limit price, or for a market order the current price moved by the
/// slippage against the trader. A limit buy fills at a limit at or above the
/// current price, a limit sell at or below it, a market order always, and only
/// a positive size fills. What is left open stays in the book while positive.
pub open spec fn order_outcome(o: OrderBook, draw: FillDraw, c: FillContext) -> Option<
    (Option<OrderBook>, Option<Fill>),
> {
    let full = o.partially_filled || value_lt(draw.roll, c.filled_probability);
    let fill = if full {
        Some(o.size)
    } else {
        decimal_product(draw.fraction, o.size)
    };
    let adjusted = match o.price {
        Some(p) => Some(p),
        None => match decimal_sum(
            dec(1, 0),
            if c.is_buy_order {
                c.slippage
            } else {
                negated(c.slippage)
            },
        ) {
            Some(factor) => decimal_product(c.current_price, factor),
            None => None,
        },
    };
    match (fill, adjusted) {
        (Some(fill), Some(price)) => {
            let condition = o.price is None || if c.is_buy_order {
                !value_lt(price, c.current_price)
            } else {
                !value_lt(c.current_price, price)
            };
            let fills = condition && value_lt(dec(0, 0), fill);
            let left = if fills {
                decimal_difference(o.size, fill)
            } else {
                Some(o.size)
            };
            match left {
                Some(size) => {
                    let after = OrderBook { size, partially_filled: !full || o.partially_filled, ..o };
                    Some(
                        (
                            if value_lt(dec(0, 0), size) {
                                Some(after)
                            } else {
                                None
                            },
                            if fills {
                                Some(
                                    (
                                        o.order_id,
                                        fill,
                                        price,
                                        if c.is_buy_order {
                                            OrderSide::Long
                                        } else {
                                            OrderSide::Short
                                        },
                                    ),
                                )
                            } else {
                                None
                            },
                        ),
                    )
                },
                None => None,
            }
        },
        _ => None,
    }
}

/// The book and the fills after a pass over the first orders, in order.
pub open spec fn pass_outcome(orders: Seq<OrderBook>, draws: Seq<FillDraw>, c: FillContext) -> Option<
    (Seq<OrderBook>, Seq<Fill>),
>
    decreases orders.len(),
{
    if orders.len() == 0 {
        Some((Seq::empty(), Seq::empty()))
    } else {
        match pass_outcome(orders.drop_last(), draws, c) {
            Some((kept, fills)) => match order_outcome(
                orders.last(),
                draws[orders.len() - 1],
                c,
            ) {
                Some((after, fill)) => Some(
                    (
                        match after {
                            Some(a) => kept.push(a),
                            None => kept,
                        },
                        match fill {
                            Some(f) => fills.push(f),
                            None => fills,
                        },
                    ),
                ),
                None => None,
            },
            None => None,
        }
    }
}

/// The size and price of a fill can be held by rust_decimal.
pub open spec fn fill_is_valid(f: Fill) -> bool {
    is_valid_decimal(f.1) && is_valid_decimal(f.2)
}

/// One order through a pass; see [`order_outcome`].
fn process_order(o: OrderBook, draw: FillDraw, c: FillContext) -> (r: Result<
    (Option<OrderBook>, Option<Fill>),
    DecimalOverflow,
>)
    requires
        order_is_valid(o),
        draw_is_valid(draw),
        context_is_valid(c),
    ensures
        match order_outcome(o, draw, c) {
            Some(out) => r == Ok::<_, DecimalOverflow>(out),
            None => r is Err,
        },
        r matches Ok((Some(a), _)) ==> order_is_valid(a),
        r matches Ok((_, Some(f))) ==> is_valid_decimal(f.1) && is_valid_decimal(f.2) && f.0 == o.order_id,
{
    let zero = DecimalValue { mantissa: 0, scale: 0 };
    let one = DecimalValue { mantissa: 1, scale: 0 };
    let full = o.partially_filled || less_than(draw.roll, c.filled_probability);
    let fill = if full {
        o.size
    } else {
        match checked_mul(draw.fraction, o.size) {
            Some(f) => f,
            None => return Err(DecimalOverflow),
        }
    };
    let price = match o.price {
        Some(p) => p,
        None => {
            let shift = if c.is_buy_order {
                c.slippage
            } else {
                DecimalValue { mantissa: -c.slippage.mantissa, scale: c.slippage.scale }
            };
            let factor = match checked_add(one, shift) {
                Some(f) => f,
                None => return Err(DecimalOverflow),
            };
            match checked_mul(c.current_price, factor) {
                Some(p) => p,
                None => return Err(DecimalOverflow),
            }
        },
    };
    let condition = o.price.is_none() || if c.is_buy_order {
        !less_than(price, c.current_price)
    } else {
        !less_than(c.current_price, price)
    };
    let fills = condition && less_than(zero, fill);
    let size = if fills {
        match checked_sub(o.size, fill) {
            Some(s) => s,
            None => return Err(DecimalOverflow),
        }
    } else {
        o.size
    };
    let after = OrderBook {
        price: o.price,
        size,
        order_id: o.order_id,
        partially_filled: !full || o.partially_filled,
    };
    let kept = if less_than(zero, size) {
        Some(after)
    } else {
        None
    };
    let filled = if fills {
        Some(
            (
                o.order_id,
                fill,
                price,
                if c.is_buy_order {
                    OrderSide::Long
                } else {
                    OrderSide::Short
                },
            ),
        )
    } else {
        None
    };
    Ok((kept, filled))
}

/// One pass of the emulated matching over a side of the book: every order is
/// tried in turn with its draw (see [`order_outcome`]); used-up orders leave the
/// book, the others stay in their order, and the fills are appended to
/// `filled_orders` in order. On an overflow of rust_decimal, an error is returned
/// and nothing is changed.
pub fn process_order_book(
    order_books: &mut Vec<OrderBook>,
    filled_orders: &mut Vec<Fill>,
    draws: &Vec<FillDraw>,
    context: FillContext,
) -> (r: Result<(), DecimalOverflow>)
    requires
        draws@.len() == old(order_books)@.len(),
        forall|i: int| 0 <= i < old(order_books)@.len() ==> order_is_valid(#[trigger] old(order_books)@[i]),
        forall|i: int| 0 <= i < draws@.len() ==> draw_is_valid(#[trigger] draws@[i]),
        context_is_valid(context),
    ensures
        match pass_outcome(old(order_books)@, draws@, context) {
            Some((kept, fills)) => {
                &&& r is Ok
                &&& final(order_books)@ == kept
                &&& final(filled_orders)@ == old(filled_orders)@ + fills
            },
            None => {
                &&& r is Err
                &&& final(order_books)@ == old(order_books)@
                &&& final(filled_orders)@ == old(filled_orders)@
            },
        },
        forall|i: int| 0 <= i < final(order_books)@.len() ==> order_is_valid(#[trigger] final(order_books)@[i]),
        forall|k: int|
            old(filled_orders)@.len() <= k < final(filled_orders)@.len() ==> fill_is_valid(
                #[trigger] final(filled_orders)@[k],
            ) && exists|j: int|
                0 <= j < old(order_books)@.len() && #[trigger] old(order_books)@[j].order_id
                    == final(filled_orders)@[k].0,
{
    let ghost orders = order_books@;
    let ghost before = filled_orders@;
    let mut kept: Vec<OrderBook> = Vec::new();
    let mut fills: Vec<Fill> = Vec::new();
    let mut i: usize = 0;
    while i < order_books.len()
        invariant
            order_books@ == orders,
            draws@.len() == orders.len(),
            forall|k: int| 0 <= k < orders.len() ==> order_is_valid(#[trigger] orders[k]),
            forall|k: int| 0 <= k < draws@.len() ==> draw_is_valid(#[trigger] draws@[k]),
            context_is_valid(context),
            i <= orders.len(),
            pass_outcome(orders.take(i as int), draws@, context) == Some((kept@, fills@)),
            forall|k: int| 0 <= k < kept@.len() ==> order_is_valid(#[trigger] kept@[k]),
            filled_orders@ == before,
            forall|k: int|
                0 <= k < fills@.len() ==> fill_is_valid(#[trigger] fills@[k]) && exists|j: int|
                    0 <= j < orders.len() && #[trigger] orders[j].order_id == fills@[k].0,
        decreases orders.len() - i,
    {
        assert(orders.take(i as int + 1).drop_last() =~= orders.take(i as int));
        assert(orders.take(i as int + 1).last() == orders[i as int]);
        match process_order(order_books[i], draws[i], context) {
            Ok((after, fill)) => {
                if let Some(a) = after {
                    kept.push(a);
                }
                if let Some(f) = fill {
                    assert(orders[i as int].order_id == f.0);
                    fills.push(f);
                }
            },
            Err(e) => {
                proof {
                    lemma_pass_stays_none(orders, draws@, context, i as int + 1);
                }
                return Err(e);
            },
        }
        i = i + 1;
    }
    assert(orders.take(i as int) =~= orders);
    *order_books = kept;
    filled_orders.append(&mut fills);
    Ok(())
}

/// Once a pass overflows on some order, the whole pass overflows.
proof fn lemma_pass_stays_none(orders: Seq<OrderBook>, draws: Seq<FillDraw>, c: FillContext, n: int)
    requires
        0 <= n <= orders.len(),
        pass_outcome(orders.take(n), draws, c) is None,
    ensures
        pass_outcome(orders, draws, c) is None,
    decreases orders.len() - n,
{
    if n < orders.len() {
        assert(orders.take(n + 1).drop_last() =~= orders.take(n));
        lemma_pass_stays_none(orders, draws, c, n + 1);
    } else {
        assert(orders.take(n) =~= orders);
    }
}

/// After a pass every order left in the book has a positive size, and every
/// fill has a positive size.
pub proof fn lemma_pass_keeps_open_orders(orders: Seq<OrderBook>, draws: Seq<FillDraw>, c: FillContext)
    requires
        pass_outcome(orders, draws, c) is Some,
    ensures
        ({
            let (kept, fills) = pass_outcome(orders, draws, c).unwrap();
            &&& forall|i: int| 0 <= i < kept.len() ==> value_lt(dec(0, 0), #[trigger] kept[i].size)
            &&& forall|i: int| 0 <= i < fills.len() ==> value_lt(dec(0, 0), #[trigger] fills[i].1)
        }),
    decreases orders.len(),
{
    if orders.len() > 0 {
        lemma_pass_keeps_open_orders(orders.drop_last(), draws, c);
    }
}

/// After a cancellation no order with the cancelled id is left, and every other
/// order is.
pub proof fn lemma_cancel_removes_exactly(orders: Seq<OrderBook>, order_id: u32)
    ensures
        forall|i: int|
            0 <= i < without_order(orders, order_id).len() ==> #[trigger] without_order(
                orders,
                order_id,
            )[i].order_id != order_id,
        forall|o: OrderBook|
            orders.contains(o) && o.order_id != order_id ==> #[trigger] without_order(
                orders,
                order_id,
            ).contains(o),
{
    broadcast use vstd::seq_lib::group_filter_ensures;
}

/// The orders of one symbol, by side.
pub struct OrderBooks {
    pub buy_order_books: Vec<OrderBook>,
    pub sell_order_books: Vec<OrderBook>,
}

/// The orders whose id is not `order_id`, in order.
pub open spec fn without_order(orders: Seq<OrderBook>, order_id: u32) -> Seq<OrderBook> {
    orders.filter(|o: OrderBook| o.order_id != order_id)
}

/// Removes the orders with the given id, keeping the others in order.
fn remove_order(orders: &mut Vec<OrderBook>, order_id: u32)
    ensures
        final(orders)@ == without_order(old(orders)@, order_id),
{
    let ghost start = orders@;
    let mut kept: Vec<OrderBook> = Vec::new();
    let mut i: usize = 0;
    while i < orders.len()
        invariant
            orders@ == start,
            i <= start.len(),
            kept@ == without_order(start.take(i as int), order_id),
        decreases start.len() - i,
    {
        let o = orders[i];
        proof {
            assert(start.take(i as int + 1) =~= start.take(i as int).push(o));
            start.take(i as int).lemma_filter_push(o, |x: OrderBook| x.order_id != order_id);
        }
        if o.order_id != order_id {
            kept.push(o);
        }
        i = i + 1;
    }
    assert(start.take(i as int) =~= start);
    *orders = kept;
}

impl OrderBooks {
    pub fn new() -> (books: Self)
        ensures
            books.buy_order_books@.len() == 0,
            books.sell_order_books@.len() == 0,
    {
        OrderBooks { buy_order_books: Vec::new(), sell_order_books: Vec::new() }
    }

    /// Rests an order on the buy side for a long order, on the sell side otherwise.
    pub fn add_order(&mut self, side: OrderSide, order: OrderBook)
        ensures
            side == OrderSide::Long ==> final(self).buy_order_books@ == old(self).buy_order_books@.push(order)
                && final(self).sell_order_books@ == old(self).sell_order_books@,
            side == OrderSide::Short ==> final(self).sell_order_books@ == old(self).sell_order_books@.push(order)
                && final(self).buy_order_books@ == old(self).buy_order_books@,
    {
        match side {
            OrderSide::Long => self.buy_order_books.push(order),
            OrderSide::Short => self.sell_order_books.push(order),
        }
    }

    /// Cancels the order with the given id on both sides.
    pub fn cancel_order(&mut self, order_id: u32)
        ensures
            final(self).buy_order_books@ == without_order(old(self).buy_order_books@, order_id),
            final(self).sell_order_books@ == without_order(old(self).sell_order_books@, order_id),
    {
        remove_order(&mut self.buy_order_books, order_id);
        remove_order(&mut self.sell_order_books, order_id);
    }

    /// Cancels every order of the symbol.
    pub fn cancel_all_orders(&mut self)
        ensures
            final(self).buy_order_books@.len() == 0,
            final(self).sell_order_books@.len() == 0,
    {
        self.buy_order_books.clear();
        self.sell_order_books.clear();
    }
}

/// The id of the next order: one more than the last one handed out.
pub fn next_order_id(order_id_counter: &mut u32) -> (id: u32)
    requires
        *old(order_id_counter) < u32::MAX,
    ensures
        id == *old(order_id_counter) + 1,
        *final(order_id_counter) == id,
{
    *order_id_counter = *order_id_counter + 1;
    *order_id_counter
}


/// The number of decimals orders are placed with.
pub const ORDER_DECIMALS: u32 = 5;

/// Places an order in the emulated book of its symbol: it takes the next order
/// id, its size and limit price are cut to 5 decimals (towards zero), and it
/// rests on the buy side for a long order and on the sell side otherwise. The
/// answer is the order id, the limit price (zero for a market order) and the size.
pub fn create_order(
    books: &mut OrderBooks,
    order_id_counter: &mut u32,
    size: DecimalValue,
    side: OrderSide,
    price: Option<DecimalValue>,
) -> (response: (u32, DecimalValue, DecimalValue))
    requires
        *old(order_id_counter) < u32::MAX,
        is_valid_decimal(size),
        price matches Some(p) ==> is_valid_decimal(p),
    ensures
        response.0 == *old(order_id_counter) + 1,
        *final(order_id_counter) == response.0,
        response.1 == match price {
            Some(p) => decimal_truncated(p, ORDER_DECIMALS),
            None => dec(0, 0),
        },
        response.2 == decimal_truncated(size, ORDER_DECIMALS),
        ({
            let order = OrderBook {
                price: match price {
                    Some(p) => Some(decimal_truncated(p, ORDER_DECIMALS)),
                    None => None,
                },
                size: response.2,
                order_id: response.0,
                partially_filled: false,
            };
            &&& side == OrderSide::Long ==> final(books).buy_order_books@ == old(
                books,
            ).buy_order_books@.push(order) && final(books).sell_order_books@ == old(
                books,
            ).sell_order_books@
            &&& side == OrderSide::Short ==> final(books).sell_order_books@ == old(
                books,
            ).sell_order_books@.push(order) && final(books).buy_order_books@ == old(
                books,
            ).buy_order_books@
        }),
{
    let order_id = next_order_id(order_id_counter);
    let size = truncate_dp(size, ORDER_DECIMALS);
    let price = match price {
        Some(p) => Some(truncate_dp(p, ORDER_DECIMALS)),
        None => None,
    };
    let order = OrderBook { price, size, order_id, partially_filled: false };
    books.add_order(side, order);
    let ordered_price = match price {
        Some(p) => p,
        None => DecimalValue { mantissa: 0, scale: 0 },
    };
    (order_id, ordered_price, size)
}

/// The trade id the emulator reports for a fill of `order_id`: the order id
/// plus 1000.
pub fn trade_id_of(order_id: u32) -> (trade_id: u32)
    requires
        order_id + 1000 <= u32::MAX,
    ensures
        trade_id == order_id + 1000,
{
    order_id + 1000
}


/// What `u32`'s `FromStr` makes of `text` (see [`integer_from_text`]).
pub open spec fn u32_from_text(text: Seq<char>) -> Option<u32> {
    match integer_from_text(text, 0, u32::MAX as int) {
        Some(v) => Some(v as u32),
        None => None,
    }
}

/// Returned for an order id that is not a number.
#[derive(Clone, Copy, Debug, PartialEq, Eq, Structural)]
pub struct InvalidOrderId;

/// The order id that `order_id` spells (see [`u32_from_text`]); an error when
/// it spells none, before any book is looked at.
pub fn parse_order_id(order_id: &str) -> (id: Result<u32, InvalidOrderId>)
    ensures
        id == match u32_from_text(order_id@) {
            Some(n) => Ok(n),
            None => Err(InvalidOrderId),
        },
{
    match parse_integer(order_id, 0, 0xFFFF_FFFF) {
        Some(n) => Ok(n as u32),
        None => Err(InvalidOrderId),
    }
}


/// A fill as the emulated exchange reports it: the order and trade ids (the
/// trade id is the order id plus 1000), the side, the filled size, its value
/// (size times price) and a zero fee; the emulator rejects no order.
#[derive(Clone, Copy, Debug, PartialEq, Eq, Structural)]
pub struct FilledOrder {
    pub order_id: u32,
    pub trade_id: u32,
    pub filled_side: OrderSide,
    pub filled_size: DecimalValue,
    pub filled_value: DecimalValue,
    pub filled_fee: DecimalValue,
    pub is_rejected: bool,
}

/// The report of one fill; `None` where rust_decimal cannot multiply size and price.
pub open spec fn report_of(f: Fill) -> Option<FilledOrder> {
    match decimal_product(f.1, f.2) {
        Some(value) => Some(
            FilledOrder {
                order_id: f.0,
                trade_id: (f.0 + 1000) as u32,
                filled_side: f.3,
                filled_size: f.1,
                filled_value: value,
                filled_fee: dec(0, 0),
                is_rejected: false,
            },
        ),
        None => None,
    }
}

/// The reports of the fills, in order; `None` if any of them fails.
pub open spec fn reports_of(fills: Seq<Fill>) -> Option<Seq<FilledOrder>>
    decreases fills.len(),
{
    if fills.len() == 0 {
        Some(Seq::empty())
    } else {
        match (reports_of(fills.drop_last()), report_of(fills.last())) {
            (Some(r), Some(last)) => Some(r.push(last)),
            _ => None,
        }
    }
}

/// Once a report fails, the reports of every longer list fail.
proof fn lemma_reports_stay_none(fills: Seq<Fill>, n: int)
    requires
        0 <= n <= fills.len(),
        reports_of(fills.take(n)) is None,
    ensures
        reports_of(fills) is None,
    decreases fills.len() - n,
{
    if n < fills.len() {
        assert(fills.take(n + 1).drop_last() =~= fills.take(n));
        lemma_reports_stay_none(fills, n + 1);
    } else {
        assert(fills.take(n) =~= fills);
    }
}

/// The reports of `fills` (see [`reports_of`]).
fn report_fills(fills: &Vec<Fill>) -> (reports: Result<Vec<FilledOrder>, DecimalOverflow>)
    requires
        forall|k: int| 0 <= k < fills@.len() ==> fill_is_valid(#[trigger] fills@[k]) && fills@[k].0 + 1000 <= u32::MAX,
    ensures
        match reports_of(fills@) {
            Some(r) => reports matches Ok(v) && v@ == r,
            None => reports is Err,
        },
{
    let mut out: Vec<FilledOrder> = Vec::new();
    let mut i: usize = 0;
    while i < fills.len()
        invariant
            i <= fills@.len(),
            forall|k: int| 0 <= k < fills@.len() ==> fill_is_valid(#[trigger] fills@[k]) && fills@[k].0 + 1000 <= u32::MAX,
            reports_of(fills@.take(i as int)) == Some(out@),
        decreases fills@.len() - i,
    {
        assert(fills@.take(i as int + 1).drop_last() =~= fills@.take(i as int));
        let f = fills[i];
        assert(fill_is_valid(fills@[i as int]));
        match checked_mul(f.1, f.2) {
            Some(value) => {
                out.push(
                    FilledOrder {
                        order_id: f.0,
                        trade_id: f.0 + 1000,
                        filled_side: f.3,
                        filled_size: f.1,
                        filled_value: value,
                        filled_fee: DecimalValue { mantissa: 0, scale: 0 },
                        is_rejected: false,
                    },
                );
            },
            None => {
                proof {
                    lemma_reports_stay_none(fills@, i as int + 1);
                }
                return Err(DecimalOverflow);
            },
        }
        i = i + 1;
    }
    assert(fills@.take(i as int) =~= fills@);
    Ok(out)
}

/// The market conditions of a pass over one side of the book.
pub open spec fn side_context(
    is_buy_order: bool,
    current_price: DecimalValue,
    filled_probability: DecimalValue,
    slippage: DecimalValue,
) -> FillContext {
    FillContext { current_price, is_buy_order, filled_probability, slippage }
}

/// The ids of the orders leave room for their trade ids.
pub open spec fn ids_leave_room(orders: Seq<OrderBook>) -> bool {
    forall|k: int| 0 <= k < orders.len() ==> #[trigger] orders[k].order_id + 1000 <= u32::MAX
}

/// The fills of a symbol at `current_price`: a pass over the buy book (with
/// `buy_draws`), then one over the sell book (with `sell_draws`), see
/// [`process_order_book`], and the report of the buy fills followed by the sell
/// fills (see [`reports_of`]). Where rust_decimal overflows, an error is
/// returned; the books keep what the passes before it did.
pub fn filled_orders(
    books: &mut OrderBooks,
    buy_draws: &Vec<FillDraw>,
    sell_draws: &Vec<FillDraw>,
    current_price: DecimalValue,
    filled_probability: DecimalValue,
    slippage: DecimalValue,
) -> (report: Result<Vec<FilledOrder>, DecimalOverflow>)
    requires
        buy_draws@.len() == old(books).buy_order_books@.len(),
        sell_draws@.len() == old(books).sell_order_books@.len(),
        forall|i: int|
            0 <= i < old(books).buy_order_books@.len() ==> order_is_valid(#[trigger] old(books).buy_order_books@[i]),
        forall|i: int|
            0 <= i < old(books).sell_order_books@.len() ==> order_is_valid(#[trigger] old(books).sell_order_books@[i]),
        forall|i: int| 0 <= i < buy_draws@.len() ==> draw_is_valid(#[trigger] buy_draws@[i]),
        forall|i: int| 0 <= i < sell_draws@.len() ==> draw_is_valid(#[trigger] sell_draws@[i]),
        is_valid_decimal(current_price),
        is_valid_decimal(filled_probability),
        is_valid_decimal(slippage),
        ids_leave_room(old(books).buy_order_books@),
        ids_leave_room(old(books).sell_order_books@),
    ensures
        match pass_outcome(
            old(books).buy_order_books@,
            buy_draws@,
            side_context(true, current_price, filled_probability, slippage),
        ) {
            None => {
                &&& report is Err
                &&& final(books).buy_order_books@ == old(books).buy_order_books@
                &&& final(books).sell_order_books@ == old(books).sell_order_books@
            },
            Some((kept_buy, buy_fills)) => match pass_outcome(
                old(books).sell_order_books@,
                sell_draws@,
                side_context(false, current_price, filled_probability, slippage),
            ) {
                None => {
                    &&& report is Err
                    &&& final(books).buy_order_books@ == kept_buy
                    &&& final(books).sell_order_books@ == old(books).sell_order_books@
                },
                Some((kept_sell, sell_fills)) => {
                    &&& final(books).buy_order_books@ == kept_buy
                    &&& final(books).sell_order_books@ == kept_sell
                    &&& match reports_of(buy_fills + sell_fills) {
                        Some(r) => report matches Ok(v) && v@ == r,
                        None => report is Err,
                    }
                },
            },
        },
{
    let mut fills: Vec<Fill> = Vec::new();
    let buy = FillContext { current_price, is_buy_order: true, filled_probability, slippage };
    let sell = FillContext { current_price, is_buy_order: false, filled_probability, slippage };
    let ghost buy_before = books.buy_order_books@;
    let ghost sell_before = books.sell_order_books@;
    process_order_book(&mut books.buy_order_books, &mut fills, buy_draws, buy)?;
    let ghost after_buy = fills@;
    process_order_book(&mut books.sell_order_books, &mut fills, sell_draws, sell)?;
    proof {
        assert forall|k: int| 0 <= k < fills@.len() implies fill_is_valid(#[trigger] fills@[k])
            && fills@[k].0 + 1000 <= u32::MAX by {
            if k < after_buy.len() {
                let j = choose|j: int| 0 <= j < buy_before.len() && #[trigger] buy_before[j].order_id == after_buy[k].0;
                assert(buy_before[j].order_id + 1000 <= u32::MAX);
            } else {
                let j = choose|j: int| 0 <= j < sell_before.len() && #[trigger] sell_before[j].order_id == fills@[k].0;
                assert(sell_before[j].order_id + 1000 <= u32::MAX);
            }
        }
    }
    report_fills(&fills)
}

} // verus!
