use vstd::prelude::*;

use crate::db::counter::increments;
use crate::db::{Counter, CounterData, CounterType};
use crate::utils::DateTimeUtils;

verus! {

#[verifier::external_type_specification]
#[verifier::external_body]
pub struct ExSystemTime(std::time::SystemTime);

/// The application state kept between runs.
#[derive(Clone, Debug)]
pub struct AppState {
    pub id: u32,
    pub last_execution_time: Option<std::time::SystemTime>,
    pub liquidated_time: Vec<String>,
}

impl Default for AppState {
    /// The state of a fresh run: id 1, no execution time, no liquidations.
    fn default() -> (state: Self)
        ensures
            state.id == 1,
            state.last_execution_time is None,
            state.liquidated_time@.len() == 0,
    {
        Self { id: 1, last_execution_time: None, liquidated_time: Vec::new() }
    }
}

impl AppState {
    /// Records a run in the state: the execution time is replaced when one is
    /// given, and the liquidation date, when one is given, is appended to the
    /// list of liquidation times.
    pub fn record(
        &mut self,
        last_execution_time: Option<std::time::SystemTime>,
        liquidated_at: Option<String>,
    )
        ensures
            final(self).id == old(self).id,
            final(self).last_execution_time == (match last_execution_time {
                Some(t) => Some(t),
                None => old(self).last_execution_time,
            }),
            final(self).liquidated_time@ == (match liquidated_at {
                Some(date) => old(self).liquidated_time@.push(date),
                None => old(self).liquidated_time@,
            }),
    {
        if last_execution_time.is_some() {
            self.last_execution_time = last_execution_time;
        }
        if let Some(date) = liquidated_at {
            self.liquidated_time.push(date);
        }
    }

    /// Records a run in the state, stamping a liquidation with the current date
    /// and time when `is_liquidated` holds.
    pub fn record_now(
        &mut self,
        last_execution_time: Option<std::time::SystemTime>,
        is_liquidated: bool,
    )
        ensures
            final(self).id == old(self).id,
            final(self).last_execution_time == (match last_execution_time {
                Some(t) => Some(t),
                None => old(self).last_execution_time,
            }),
            final(self).liquidated_time@.len() == old(self).liquidated_time@.len() + if is_liquidated {
                1int
            } else {
                0int
            },
            final(self).liquidated_time@.take(old(self).liquidated_time@.len() as int)
                == old(self).liquidated_time@,
    {
        let liquidated_at = if is_liquidated {
            Some(DateTimeUtils::get_current_datetime_string())
        } else {
            None
        };
        self.record(last_execution_time, liquidated_at);
        proof {
            assert(self.liquidated_time@.take(old(self).liquidated_time@.len() as int)
                =~= old(self).liquidated_time@);
        }
    }
}

/// The id of the last of the stored items, or 0 when there is none or the last
/// item has no id.
pub fn last_item_id(ids: &Vec<Option<u32>>) -> (id: u32)
    ensures
        id == (if ids@.len() == 0 {
            0u32
        } else {
            match ids@[ids@.len() - 1] {
                Some(v) => v,
                None => 0u32,
            }
        }),
{
    if ids.len() == 0 {
        0
    } else {
        match ids[ids.len() - 1] {
            Some(v) => v,
            None => 0,
        }
    }
}

/// Hands out record ids and names the database the records go to.
pub struct TransactionLog {
    counter: Counter,
    db_name: String,
}

impl TransactionLog {
    /// The counter of the given kind.
    pub open spec fn counter_data(&self, counter_type: CounterType) -> CounterData {
        self.spec_counter().data(counter_type)
    }

    /// The name of the database.
    pub closed spec fn spec_db_name(&self) -> Seq<char> {
        self.db_name@
    }

    pub fn new(
        max_position_counter: u32,
        max_price_couner: u32,
        max_balance_counter: u32,
        position_counter: u32,
        price_counter: u32,
        balance_counter: u32,
        db_name: &str,
    ) -> (log: Self)
        ensures
            log.counter_data(CounterType::Position).spec_max() == max_position_counter,
            log.counter_data(CounterType::Price).spec_max() == max_price_couner,
            log.counter_data(CounterType::Balance).spec_max() == max_balance_counter,
            log.counter_data(CounterType::Position).spec_counter() == position_counter,
            log.counter_data(CounterType::Price).spec_counter() == price_counter,
            log.counter_data(CounterType::Balance).spec_counter() == balance_counter,
            log.spec_db_name() == db_name@,
    {
        let counter = Counter::new(
            max_position_counter,
            max_price_couner,
            max_balance_counter,
            position_counter,
            price_counter,
            balance_counter,
        );
        TransactionLog { counter, db_name: db_name.to_owned() }
    }

    /// The counter the log hands ids out with.
    pub closed spec fn spec_counter(&self) -> Counter {
        self.counter
    }

    /// The next id of the given kind: exactly what [`Counter::increment`] hands
    /// out on the log's own counter, with the same change to it; the database
    /// name is kept.
    pub fn increment_counter(&mut self, counter_type: CounterType) -> (id: u32)
        requires
            old(self).counter_data(counter_type).can_increment(),
        ensures
            increments(old(self).spec_counter(), final(self).spec_counter(), counter_type, id),
            final(self).spec_db_name() == old(self).spec_db_name(),
    {
        self.counter.increment(counter_type)
    }

    pub fn db_name(&self) -> (name: &str)
        ensures
            name@ == self.spec_db_name(),
    {
        self.db_name.as_str()
    }
}

} // verus!
