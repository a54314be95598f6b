use vstd::prelude::*;

use crate::decimal::{dec, DecimalValue};
use crate::trade::fund_config::TradingStrategy;

verus! {

fn same_text(a: &String, b: &String) -> (same: bool)
    ensures
        same == (a@ == b@),
{
    *a == *b
}

fn text_is(text: &String, literal: &str) -> (same: bool)
    ensures
        same == (text@ == literal@),
{
    let other = String::from_str(literal);
    *text == other
}

/// Whether a logged position (its token, type and state) is a training sample
/// for the model of `token_name` and `wanted_type` under `strategy` (see
/// [`is_training_sample`]).
pub open spec fn training_sample(
    position_token: Seq<char>,
    position_type: Seq<char>,
    state: Seq<char>,
    token_name: Seq<char>,
    wanted_type: Seq<char>,
    strategy: TradingStrategy,
    spread_feature_is_zero: bool,
) -> bool {
    &&& position_token == token_name
    &&& position_type == wanted_type
    &&& (state == "Closed(TakeProfit)"@ || state == "Closed(CutLoss)"@ || state == "Closed(Expired)"@)
    &&& !(strategy is MeanReversion && spread_feature_is_zero)
    &&& !(strategy is TrendFollow && !spread_feature_is_zero)
}

/// Whether a logged position is a training sample for the model of
/// `token_name` and `position_type` under `strategy`: it is of that token and
/// type, it closed by taking profit, cutting loss or expiring, and its spread
/// feature suits the strategy (mean reversion needs a spread, trend following
/// needs none).
pub fn is_training_sample(
    position_token: &String,
    position_type: &String,
    state: &String,
    token_name: &String,
    wanted_type: &String,
    strategy: TradingStrategy,
    spread_feature_is_zero: bool,
) -> (sample: bool)
    ensures
        sample == training_sample(
            position_token@,
            position_type@,
            state@,
            token_name@,
            wanted_type@,
            strategy,
            spread_feature_is_zero,
        ),
{
    if !(same_text(position_token, token_name) && same_text(position_type, wanted_type)) {
        return false;
    }
    if !(text_is(state, "Closed(TakeProfit)") || text_is(state, "Closed(CutLoss)") || text_is(
        state,
        "Closed(Expired)",
    )) {
        return false;
    }
    match strategy {
        TradingStrategy::MeanReversion(_) => !spread_feature_is_zero,
        TradingStrategy::TrendFollow(_) => spread_feature_is_zero,
        _ => true,
    }
}


/// The number of underscores in `text`.
pub open spec fn underscore_count(text: Seq<char>) -> nat
    decreases text.len(),
{
    if text.len() == 0 {
        0
    } else {
        underscore_count(text.drop_last()) + if text.last() == '_' {
            1nat
        } else {
            0nat
        }
    }
}

proof fn lemma_no_underscore(text: Seq<char>)
    ensures
        underscore_count(text) == 0 <==> !text.contains('_'),
    decreases text.len(),
{
    if text.len() > 0 {
        lemma_no_underscore(text.drop_last());
        if text.drop_last().contains('_') {
            let w = choose|w: int| 0 <= w < text.drop_last().len() && text.drop_last()[w] == '_';
            assert(text[w] == '_');
        }
        if text.contains('_') && text.last() != '_' {
            let w = choose|w: int| 0 <= w < text.len() && text[w] == '_';
            assert(text.drop_last()[w] == '_');
        }
    }
}

proof fn lemma_count_concat(a: Seq<char>, b: Seq<char>)
    ensures
        underscore_count(a + b) == underscore_count(a) + underscore_count(b),
    decreases b.len(),
{
    if b.len() == 0 {
        assert(a + b =~= a);
    } else {
        lemma_count_concat(a, b.drop_last());
        assert((a + b).drop_last() =~= a + b.drop_last());
    }
}

/// Whether `key` has the form `<token>_<type>` that a model key needs: exactly
/// one underscore.
pub fn is_model_key(key: &str) -> (valid: bool)
    ensures
        valid == (underscore_count(key@) == 1),
{
    let n = key.unicode_len();
    let mut count: usize = 0;
    let mut i: usize = 0;
    while i < n
        invariant
            n == key@.len(),
            i <= n,
            count == underscore_count(key@.take(i as int)),
            count <= i,
        decreases n - i,
    {
        assert(key@.take(i as int + 1).drop_last() =~= key@.take(i as int));
        if key.get_char(i) == '_' {
            count = count + 1;
        }
        i = i + 1;
    }
    assert(key@.take(i as int) =~= key@);
    count == 1
}

/// The token name and position type of a model key `<token>_<type>`: the text
/// before and after its one underscore. A key without exactly one underscore
/// is not a model key (see [`is_model_key`]); the training-data download stops
/// on one.
pub fn split_model_key(key: &str) -> (parts: (String, String))
    requires
        underscore_count(key@) == 1,
    ensures
        parts.0@ + seq!['_'] + parts.1@ == key@,
        !parts.0@.contains('_'),
        !parts.1@.contains('_'),
{
    let n = key.unicode_len();
    let mut count: usize = 0;
    let mut at: usize = 0;
    let mut i: usize = 0;
    while i < n
        invariant
            n == key@.len(),
            i <= n,
            count == underscore_count(key@.take(i as int)),
            count <= i,
            count >= 1 ==> at < i && key@[at as int] == '_' && underscore_count(key@.take(at as int)) == 0,
        decreases n - i,
    {
        assert(key@.take(i as int + 1).drop_last() =~= key@.take(i as int));
        if key.get_char(i) == '_' {
            if count == 0 {
                at = i;
            }
            count = count + 1;
        }
        i = i + 1;
    }
    assert(key@.take(i as int) =~= key@);
    let token = key.substring_char(0, at).to_owned();
    let kind = key.substring_char(at + 1, n).to_owned();
    proof {
        let s = key@;
        assert(s =~= s.take(at as int) + seq!['_'] + s.subrange(at as int + 1, s.len() as int));
        assert(s.take(at as int) =~= token@);
        lemma_count_concat(s.take(at as int) + seq!['_'], kind@);
        lemma_count_concat(s.take(at as int), seq!['_']);
        assert(underscore_count(seq!['_']) == 1) by {
            assert(seq!['_'].drop_last() =~= Seq::<char>::empty());
        }
        lemma_no_underscore(token@);
        lemma_no_underscore(kind@);
    }
    (token, kind)
}


/// A position as the position log holds it, with what the training reads.
pub struct LoggedPosition {
    pub token_name: String,
    pub position_type: String,
    pub state: String,
    /// The numeric training inputs, in order.
    pub inputs: Vec<DecimalValue>,
    /// The spread input (input 20).
    pub spread_input: DecimalValue,
    pub output_1: DecimalValue,
    pub output_2: DecimalValue,
    pub output_3: Option<DecimalValue>,
}

/// One training row: the inputs and the three labels (class, profit ratio and
/// ticks to fill).
pub struct TrainingRow {
    pub inputs: Vec<DecimalValue>,
    pub class_label: DecimalValue,
    pub ratio_label: DecimalValue,
    pub ticks_label: DecimalValue,
}

/// Whether `p` is a training sample (see [`training_sample`]; its spread input
/// decides the strategy filter).
pub open spec fn kept_for_training(
    p: LoggedPosition,
    token_name: Seq<char>,
    wanted_type: Seq<char>,
    strategy: TradingStrategy,
) -> bool {
    training_sample(
        p.token_name@,
        p.position_type@,
        p.state@,
        token_name,
        wanted_type,
        strategy,
        p.spread_input.mantissa == 0,
    )
}

/// The positions kept for training, in order (see [`kept_for_training`]).
pub open spec fn kept_positions(
    positions: Seq<LoggedPosition>,
    token_name: Seq<char>,
    wanted_type: Seq<char>,
    strategy: TradingStrategy,
) -> Seq<LoggedPosition> {
    positions.filter(|p: LoggedPosition| kept_for_training(p, token_name, wanted_type, strategy))
}

/// The training row of a position: its inputs, output 1 and 2, and output 3
/// or -1 when it has none.
pub open spec fn row_of(p: LoggedPosition) -> TrainingRow {
    TrainingRow {
        inputs: p.inputs,
        class_label: p.output_1,
        ratio_label: p.output_2,
        ticks_label: match p.output_3 {
            Some(t) => t,
            None => dec(-1, 0),
        },
    }
}

/// The training rows for the model of `token_name` and `wanted_type` under
/// `strategy`: one row per kept position (see [`kept_for_training`]), in the
/// order of `positions`.
pub fn training_rows(
    positions: Vec<LoggedPosition>,
    token_name: &String,
    wanted_type: &String,
    strategy: TradingStrategy,
) -> (rows: Vec<TrainingRow>)
    ensures
        rows@ == kept_positions(positions@, token_name@, wanted_type@, strategy).map_values(
            |p: LoggedPosition| row_of(p),
        ),
{
    let total = positions.len();
    let ghost start = positions@;
    let ghost keep = |p: LoggedPosition| kept_for_training(p, token_name@, wanted_type@, strategy);
    let mut rest = positions;
    let mut rows: Vec<TrainingRow> = Vec::new();
    let mut done: usize = 0;
    while rest.len() > 0
        invariant
            start.len() == total,
            done + rest@.len() == start.len(),
            rest@ == start.skip(done as int),
            keep == (|p: LoggedPosition| kept_for_training(p, token_name@, wanted_type@, strategy)),
            rows@ == start.take(done as int).filter(keep).map_values(|p: LoggedPosition| row_of(p)),
        decreases rest@.len(),
    {
        let p = rest.remove(0);
        proof {
            assert(p == start[done as int]);
            assert(start.take(done as int + 1) =~= start.take(done as int).push(p));
            start.take(done as int).lemma_filter_push(p, keep);
        }
        let kept = is_training_sample(
            &p.token_name,
            &p.position_type,
            &p.state,
            token_name,
            wanted_type,
            strategy,
            p.spread_input.mantissa == 0,
        );
        if kept {
            let ticks = match p.output_3 {
                Some(t) => t,
                None => DecimalValue { mantissa: -1, scale: 0 },
            };
            let row = TrainingRow {
                inputs: p.inputs,
                class_label: p.output_1,
                ratio_label: p.output_2,
                ticks_label: ticks,
            };
            proof {
                let f = start.take(done as int).filter(keep);
                assert(f.push(p).map_values(|q: LoggedPosition| row_of(q)) =~= f.map_values(
                    |q: LoggedPosition| row_of(q),
                ).push(row_of(p)));
            }
            rows.push(row);
        }
        done = done + 1;
        assert(rest@ =~= start.skip(done as int));
    }
    assert(start.take(done as int) =~= start);
    rows
}


/// A training sample is always of the model's token and position type, and
/// closed by taking profit, cutting loss or expiring; mean reversion only
/// learns from positions with a spread, trend following only from positions
/// without one.
pub proof fn lemma_samples_fit_their_model(
    position_token: Seq<char>,
    position_type: Seq<char>,
    state: Seq<char>,
    token_name: Seq<char>,
    wanted_type: Seq<char>,
    strategy: TradingStrategy,
    spread_feature_is_zero: bool,
)
    ensures
        training_sample(
            position_token,
            position_type,
            state,
            token_name,
            wanted_type,
            strategy,
            spread_feature_is_zero,
        ) ==> {
            &&& position_token == token_name
            &&& position_type == wanted_type
            &&& (state == "Closed(TakeProfit)"@ || state == "Closed(CutLoss)"@ || state == "Closed(Expired)"@)
            &&& (strategy is MeanReversion ==> !spread_feature_is_zero)
            &&& (strategy is TrendFollow ==> spread_feature_is_zero)
        },
        position_token != token_name ==> !training_sample(
            position_token,
            position_type,
            state,
            token_name,
            wanted_type,
            strategy,
            spread_feature_is_zero,
        ),
        position_type != wanted_type ==> !training_sample(
            position_token,
            position_type,
            state,
            token_name,
            wanted_type,
            strategy,
            spread_feature_is_zero,
        ),
        position_token == token_name && position_type == wanted_type && state == "Closed(TakeProfit)"@
            && strategy is RandomWalk ==> training_sample(
            position_token,
            position_type,
            state,
            token_name,
            wanted_type,
            strategy,
            spread_feature_is_zero,
        ),
{
}

/// Every position a training row is made from is of the model's token and
/// position type: a position of another token or type is never kept.
pub proof fn lemma_rows_come_from_the_model(
    positions: Seq<LoggedPosition>,
    token_name: Seq<char>,
    wanted_type: Seq<char>,
    strategy: TradingStrategy,
)
    ensures
        forall|p: LoggedPosition|
            #[trigger] kept_positions(positions, token_name, wanted_type, strategy).contains(p) ==> p.token_name@
                == token_name && p.position_type@ == wanted_type,
{
    broadcast use vstd::seq_lib::group_filter_ensures;

    assert forall|p: LoggedPosition|
        #[trigger] kept_positions(positions, token_name, wanted_type, strategy).contains(p) implies p.token_name@
            == token_name && p.position_type@ == wanted_type by {
        let f = kept_positions(positions, token_name, wanted_type, strategy);
        let i = choose|i: int| 0 <= i < f.len() && f[i] == p;
        assert(kept_for_training(f[i], token_name, wanted_type, strategy));
        lemma_samples_fit_their_model(
            p.token_name@,
            p.position_type@,
            p.state@,
            token_name,
            wanted_type,
            strategy,
            p.spread_input.mantissa == 0,
        );
    }
}

} // verus!
