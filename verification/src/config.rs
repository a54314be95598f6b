use vstd::prelude::*;

use crate::decimal::{is_valid_decimal, DecimalValue};
use crate::number_text::{all_digits, digits_value, integer_from_text, parse_integer};
use crate::trade::fund_config::{TradingStrategy, TrendType};

verus! {

/// The credentials of the Hyperliquid exchange.
#[derive(Clone, Debug)]
pub struct HyperliquidConfig {
    pub agent_private_key: String,
    pub evm_wallet_address: String,
    pub vault_address: Option<String>,
}

/// The text that Rust's `str::to_lowercase` gives for `text`.
pub uninterp spec fn lowercase_text(text: Seq<char>) -> Seq<char>;

/// Calls `str::to_lowercase`; the contract claims that the result is
/// [`lowercase_text`] of the argument.
#[verifier::external_body]
fn to_lowercase(text: &str) -> (lower: String)
    ensures
        lower@ == lowercase_text(text@),
{
    text.to_lowercase()
}

/// The value of a boolean setting: when the setting is present, it is on
/// exactly when its lowercase text is `true` or `1`; when it is absent, the
/// default applies.
pub fn bool_from_env_value(value: Option<&str>, default: bool) -> (flag: bool)
    ensures
        flag == match value {
            Some(v) => lowercase_text(v@) == "true"@ || lowercase_text(v@) == "1"@,
            None => default,
        },
{
    match value {
        Some(v) => {
            let lower = to_lowercase(v);
            let yes = String::from_str("true");
            let one = String::from_str("1");
            lower == yes || lower == one
        },
        None => default,
    }
}

/// The number of prices kept: `max_price_size_hours` hours of prices sampled
/// every `interval_secs` seconds, `hours * 3600 / (interval_secs as u32)`.
pub fn max_price_size(max_price_size_hours: u32, interval_secs: i64) -> (size: u32)
    requires
        max_price_size_hours * 3600 <= u32::MAX,
        (interval_secs as u32) > 0,
    ensures
        size == (max_price_size_hours * 3600) as u32 / (interval_secs as u32),
{
    max_price_size_hours * 60 * 60 / interval_secs as u32
}


/// What rust_decimal's `Decimal::from_str` makes of `text` (`None` for text it
/// refuses).
pub uninterp spec fn decimal_from_text(text: Seq<char>) -> Option<DecimalValue>;

/// Calls `str::parse::<rust_decimal::Decimal>`. The contract claims that the
/// result is [`decimal_from_text`] of the text and, like every `Decimal`, valid.
#[verifier::external_body]
fn parse_decimal(text: &str) -> (number: Option<DecimalValue>)
    ensures
        number == decimal_from_text(text@),
        number matches Some(d) ==> is_valid_decimal(d),
{
    match text.parse::<rust_decimal::Decimal>() {
        Ok(d) => Some(DecimalValue { mantissa: d.mantissa(), scale: d.scale() }),
        Err(_) => None,
    }
}

/// Why the settings could not be read.
#[derive(Clone, Copy, Debug, PartialEq, Eq, Structural)]
pub enum ConfigError {
    /// A whole-number setting does not parse.
    InvalidInteger,
    /// A decimal setting does not parse.
    InvalidDecimal,
}

/// The settings as the environment gives them: each variable's text, `None`
/// when it is not set.
#[derive(Clone, Debug)]
pub struct EnvValues {
    pub position_log_limit: Option<String>,
    pub dry_run: Option<String>,
    pub interval_secs: Option<String>,
    pub max_price_size_hours: Option<String>,
    pub max_error_duration: Option<String>,
    pub save_prices: Option<String>,
    pub load_prices: Option<String>,
    pub liquidate_when_exit: Option<String>,
    pub max_dd_ratio: Option<String>,
    pub close_order_effective_duration_secs: Option<String>,
    pub use_market_order: Option<String>,
    pub leverage: Option<String>,
    pub trading_strategy: Option<String>,
    pub only_read_price: Option<String>,
    pub back_test: Option<String>,
    pub path_to_models: Option<String>,
}

/// The text of a setting, or `default` when it is not set.
pub open spec fn text_or(value: Option<String>, default: Seq<char>) -> Seq<char> {
    match value {
        Some(s) => s@,
        None => default,
    }
}

/// A whole-number setting from `min` to `max`, parsed from its text or its
/// default (see [`integer_from_text`]).
pub open spec fn int_setting(value: Option<String>, default: Seq<char>, min: int, max: int) -> Option<int> {
    integer_from_text(text_or(value, default), min, max)
}

/// A boolean setting (see [`bool_from_env_value`]).
pub open spec fn flag_setting(value: Option<String>, default: bool) -> bool {
    match value {
        Some(v) => lowercase_text(v@) == "true"@ || lowercase_text(v@) == "1"@,
        None => default,
    }
}

/// An optional whole-number setting: its value when it is set and parses, else
/// none.
pub open spec fn optional_u32_setting(value: Option<String>) -> Option<u32> {
    match value {
        Some(s) => match integer_from_text(s@, 0, u32::MAX as int) {
            Some(v) => Some(v as u32),
            None => None,
        },
        None => None,
    }
}

/// The trading settings read before the exchange endpoints.
#[derive(Clone, Copy, Debug, PartialEq, Eq, Structural)]
pub struct TradingSettings {
    pub position_log_limit: Option<u32>,
    pub dry_run: bool,
    pub interval_secs: i64,
    pub max_price_size: u32,
    pub max_error_duration: u64,
    pub save_prices: bool,
    pub load_prices: bool,
    pub liquidate_when_exit: bool,
    pub max_dd_ratio: DecimalValue,
    pub close_order_effective_duration_secs: i64,
    pub use_market_order: bool,
}

/// The trading settings of `values`: `POSITION_LOG_LIMIT` (none unless it
/// parses), `DRY_RUN` (default on), `INTERVAL_SECS` (default 60),
/// `MAX_PRICE_SIZE_HOURS` (default 1, turned into the number of prices kept, see
/// [`max_price_size`]), `MAX_ERROR_DURATION` (default 60), `SAVE_PRICES`,
/// `LOAD_PRICES` (default off), `LIQUIDATE_WHEN_EXIT` (default on),
/// `MAX_DD_RATIO` (default 0.1), `CLOSE_ORDER_EFFECTIVE_DURATION_SECS` (default
/// 300) and `USE_MARKET_ORDER` (default off). The first number, in that order,
/// that does not parse is an error.
pub open spec fn trading_settings_for(values: EnvValues) -> Result<TradingSettings, ConfigError> {
    match int_setting(values.interval_secs, "60"@, i64::MIN as int, i64::MAX as int) {
        None => Err(ConfigError::InvalidInteger),
        Some(interval) => match int_setting(values.max_price_size_hours, "1"@, 0, u32::MAX as int) {
            None => Err(ConfigError::InvalidInteger),
            Some(hours) => match int_setting(values.max_error_duration, "60"@, 0, u64::MAX as int) {
                None => Err(ConfigError::InvalidInteger),
                Some(max_error) => match decimal_from_text(text_or(values.max_dd_ratio, "0.1"@)) {
                    None => Err(ConfigError::InvalidDecimal),
                    Some(ratio) => match int_setting(
                        values.close_order_effective_duration_secs,
                        "300"@,
                        i64::MIN as int,
                        i64::MAX as int,
                    ) {
                        None => Err(ConfigError::InvalidInteger),
                        Some(close_secs) => Ok(
                            TradingSettings {
                                position_log_limit: optional_u32_setting(values.position_log_limit),
                                dry_run: flag_setting(values.dry_run, true),
                                interval_secs: interval as i64,
                                max_price_size: ((hours * 3600) as u32 / ((interval as i64) as u32)) as u32,
                                max_error_duration: max_error as u64,
                                save_prices: flag_setting(values.save_prices, false),
                                load_prices: flag_setting(values.load_prices, false),
                                liquidate_when_exit: flag_setting(values.liquidate_when_exit, true),
                                max_dd_ratio: ratio,
                                close_order_effective_duration_secs: close_secs as i64,
                                use_market_order: flag_setting(values.use_market_order, false),
                            },
                        ),
                    },
                },
            },
        },
    }
}

fn text_of<'a>(value: &'a Option<String>) -> (text: Option<&'a str>)
    ensures
        match *value {
            Some(s) => text matches Some(t) && t@ == s@,
            None => text is None,
        },
{
    match value {
        Some(s) => Some(s.as_str()),
        None => None,
    }
}

fn text_or_default<'a>(value: &'a Option<String>, default: &'a str) -> (text: &'a str)
    ensures
        text@ == text_or(*value, default@),
{
    match value {
        Some(s) => s.as_str(),
        None => default,
    }
}

fn flag(value: &Option<String>, default: bool) -> (on: bool)
    ensures
        on == flag_setting(*value, default),
{
    bool_from_env_value(text_of(value), default)
}

/// Reads the trading settings of `values` (see [`trading_settings_for`]).
/// The price-size computation needs `MAX_PRICE_SIZE_HOURS * 3600` to fit in a
/// `u32` and the interval, cut to a `u32`, not to be zero.
pub fn trading_settings(values: &EnvValues) -> (settings: Result<TradingSettings, ConfigError>)
    requires
        int_setting(values.interval_secs, "60"@, i64::MIN as int, i64::MAX as int) matches Some(i)
            ==> (int_setting(values.max_price_size_hours, "1"@, 0, u32::MAX as int) matches Some(h) ==> h * 3600
            <= u32::MAX && (i as u32) > 0),
    ensures
        settings == trading_settings_for(*values),
{
    let position_log_limit = match text_of(&values.position_log_limit) {
        Some(t) => match parse_integer(t, 0, 0xFFFF_FFFF) {
            Some(v) => Some(v as u32),
            None => None,
        },
        None => None,
    };
    let dry_run = flag(&values.dry_run, true);
    let interval = match parse_integer(text_or_default(&values.interval_secs, "60"), -0x8000_0000_0000_0000, 0x7FFF_FFFF_FFFF_FFFF) {
        Some(v) => v as i64,
        None => return Err(ConfigError::InvalidInteger),
    };
    let hours = match parse_integer(text_or_default(&values.max_price_size_hours, "1"), 0, 0xFFFF_FFFF) {
        Some(v) => v as u32,
        None => return Err(ConfigError::InvalidInteger),
    };
    let price_size = max_price_size(hours, interval);
    let max_error = match parse_integer(text_or_default(&values.max_error_duration, "60"), 0, 0xFFFF_FFFF_FFFF_FFFF) {
        Some(v) => v as u64,
        None => return Err(ConfigError::InvalidInteger),
    };
    let save_prices = flag(&values.save_prices, false);
    let load_prices = flag(&values.load_prices, false);
    let liquidate_when_exit = flag(&values.liquidate_when_exit, true);
    let ratio = match parse_decimal(text_or_default(&values.max_dd_ratio, "0.1")) {
        Some(r) => r,
        None => return Err(ConfigError::InvalidDecimal),
    };
    let close_secs = match parse_integer(
        text_or_default(&values.close_order_effective_duration_secs, "300"),
        -0x8000_0000_0000_0000,
        0x7FFF_FFFF_FFFF_FFFF,
    ) {
        Some(v) => v as i64,
        None => return Err(ConfigError::InvalidInteger),
    };
    let use_market_order = flag(&values.use_market_order, false);
    Ok(
        TradingSettings {
            position_log_limit,
            dry_run,
            interval_secs: interval,
            max_price_size: price_size,
            max_error_duration: max_error,
            save_prices,
            load_prices,
            liquidate_when_exit,
            max_dd_ratio: ratio,
            close_order_effective_duration_secs: close_secs,
            use_market_order,
        },
    )
}

/// The program's settings.
#[derive(Clone, Debug)]
pub struct EnvConfig {
    pub mongodb_uri: String,
    pub db_w_name: String,
    pub db_r_name: String,
    pub rest_endpoint: String,
    pub web_socket_endpoint: String,
    pub settings: TradingSettings,
    pub leverage: u32,
    pub strategy: Option<TradingStrategy>,
    pub only_read_price: bool,
    pub back_test: bool,
    pub path_to_models: Option<String>,
}

/// The strategy named by `TRADING_STRATEGY`: `randomwalk` or `meanreversion`
/// (direction unknown), none for any other text or when it is not set.
pub open spec fn strategy_setting(value: Option<String>) -> Option<TradingStrategy> {
    if text_or(value, ""@) == "randomwalk"@ {
        Some(TradingStrategy::RandomWalk(TrendType::Unknown))
    } else if text_or(value, ""@) == "meanreversion"@ {
        Some(TradingStrategy::MeanReversion(TrendType::Unknown))
    } else {
        None
    }
}

/// The whole configuration, read after the trading settings and the exchange
/// endpoints: `LEVERAGE` (default 1; an error when it does not parse), the
/// strategy (see [`strategy_setting`]), `ONLY_READ_PRICE` and `BACK_TEST`
/// (default off) and `PATH_TO_MODELS` as given.
pub fn env_config(
    values: EnvValues,
    settings: TradingSettings,
    mongodb_uri: String,
    db_r_name: String,
    db_w_name: String,
    rest_endpoint: String,
    web_socket_endpoint: String,
) -> (config: Result<EnvConfig, ConfigError>)
    ensures
        match int_setting(values.leverage, "1"@, 0, u32::MAX as int) {
            None => config == Err::<EnvConfig, ConfigError>(ConfigError::InvalidInteger),
            Some(leverage) => config matches Ok(c) && {
                &&& c.mongodb_uri@ == mongodb_uri@
                &&& c.db_r_name@ == db_r_name@
                &&& c.db_w_name@ == db_w_name@
                &&& c.rest_endpoint@ == rest_endpoint@
                &&& c.web_socket_endpoint@ == web_socket_endpoint@
                &&& c.settings == settings
                &&& c.leverage == leverage
                &&& c.strategy == strategy_setting(values.trading_strategy)
                &&& c.only_read_price == flag_setting(values.only_read_price, false)
                &&& c.back_test == flag_setting(values.back_test, false)
                &&& c.path_to_models == values.path_to_models
            },
        },
{
    let leverage = match parse_integer(text_or_default(&values.leverage, "1"), 0, 0xFFFF_FFFF) {
        Some(v) => v as u32,
        None => return Err(ConfigError::InvalidInteger),
    };
    let name = text_or_default(&values.trading_strategy, "").to_owned();
    let strategy = if name == String::from_str("randomwalk") {
        Some(TradingStrategy::RandomWalk(TrendType::Unknown))
    } else if name == String::from_str("meanreversion") {
        Some(TradingStrategy::MeanReversion(TrendType::Unknown))
    } else {
        None
    };
    let only_read_price = flag(&values.only_read_price, false);
    let back_test = flag(&values.back_test, false);
    Ok(
        EnvConfig {
            mongodb_uri,
            db_w_name,
            db_r_name,
            rest_endpoint,
            web_socket_endpoint,
            settings,
            leverage,
            strategy,
            only_read_price,
            back_test,
            path_to_models: values.path_to_models,
        },
    )
}


/// Whether a setting's text switches its flag on: its lowercase text is `true`
/// or `1`.
pub open spec fn switches_on(text: Seq<char>) -> bool {
    lowercase_text(text) == "true"@ || lowercase_text(text) == "1"@
}

/// Each setting is read from its own variable alone: every flag is on exactly
/// when its variable's lowercase text is `true` or `1`, and at its default when
/// the variable is unset (on for `DRY_RUN` and `LIQUIDATE_WHEN_EXIT`, off for
/// the others); every number is its own variable's text parsed, or its default
/// (60 for the interval and the error duration, 300 for the close-order
/// duration) when unset; a position-log limit that does not parse is no limit.
pub proof fn lemma_settings_read_their_own_variables(values: EnvValues)
    ensures
        trading_settings_for(values) matches Ok(s) ==> {
            &&& s.use_market_order == match values.use_market_order {
                Some(v) => switches_on(v@),
                None => false,
            }
            &&& s.dry_run == match values.dry_run {
                Some(v) => switches_on(v@),
                None => true,
            }
            &&& s.save_prices == match values.save_prices {
                Some(v) => switches_on(v@),
                None => false,
            }
            &&& s.load_prices == match values.load_prices {
                Some(v) => switches_on(v@),
                None => false,
            }
            &&& s.liquidate_when_exit == match values.liquidate_when_exit {
                Some(v) => switches_on(v@),
                None => true,
            }
            &&& match values.interval_secs {
                Some(v) => integer_from_text(v@, i64::MIN as int, i64::MAX as int) == Some(s.interval_secs as int),
                None => s.interval_secs == 60,
            }
            &&& match values.max_error_duration {
                Some(v) => integer_from_text(v@, 0, u64::MAX as int) == Some(s.max_error_duration as int),
                None => s.max_error_duration == 60,
            }
            &&& match values.close_order_effective_duration_secs {
                Some(v) => integer_from_text(v@, i64::MIN as int, i64::MAX as int) == Some(
                    s.close_order_effective_duration_secs as int,
                ),
                None => s.close_order_effective_duration_secs == 300,
            }
            &&& match values.max_dd_ratio {
                Some(v) => decimal_from_text(v@) == Some(s.max_dd_ratio),
                None => decimal_from_text("0.1"@) == Some(s.max_dd_ratio),
            }
            &&& s.position_log_limit == match values.position_log_limit {
                Some(v) => match integer_from_text(v@, 0, u32::MAX as int) {
                    Some(n) => Some(n as u32),
                    None => None,
                },
                None => None,
            }
        },
{
    reveal_strlit("60");
    reveal_strlit("300");
    reveal_strlit("1");
    let t60 = "60"@;
    let t300 = "300"@;
    let t1 = "1"@;
    assert(t60.len() == 2 && t60[0] == '6' && t60[1] == '0');
    assert(t300.len() == 3);
    assert(t1.len() == 1 && t1[0] == '1');
    assert(integer_from_text(t60, i64::MIN as int, i64::MAX as int) == Some(60int)) by {
        assert(t60.drop_last() =~= seq!['6']);
        assert(seq!['6'].drop_last() =~= Seq::<char>::empty());
        assert(digits_value(Seq::<char>::empty()) == 0);
        assert(digits_value(seq!['6']) == 6);
        assert(t60.last() == '0');
        assert(digits_value(t60) == 60);
        assert(all_digits(t60));
    }
    assert(integer_from_text(t60, 0, u64::MAX as int) == Some(60int));
    assert(integer_from_text(t300, i64::MIN as int, i64::MAX as int) == Some(300int)) by {
        assert(t300[0] == '3' && t300[1] == '0' && t300[2] == '0');
        assert(t300.drop_last() =~= seq!['3', '0']);
        assert(seq!['3', '0'].drop_last() =~= seq!['3']);
        assert(seq!['3'].drop_last() =~= Seq::<char>::empty());
        assert(digits_value(Seq::<char>::empty()) == 0);
        assert(digits_value(seq!['3']) == 3);
        assert(digits_value(seq!['3', '0']) == 30);
        assert(digits_value(t300) == 300);
        assert(all_digits(t300));
    }
}

/// The configuration's own flags are read from their own variables alone:
/// `ONLY_READ_PRICE` and `BACK_TEST` are on exactly when their lowercase text is
/// `true` or `1`, and off when unset.
pub proof fn lemma_config_flags_read_their_own_variables(values: EnvValues)
    ensures
        flag_setting(values.only_read_price, false) == match values.only_read_price {
            Some(v) => switches_on(v@),
            None => false,
        },
        flag_setting(values.back_test, false) == match values.back_test {
            Some(v) => switches_on(v@),
            None => false,
        },
{
}


/// `TRADING_STRATEGY` names the random walk with `randomwalk` and mean
/// reversion with `meanreversion` (both of unknown direction); any other text,
/// or none, names no strategy.
pub proof fn lemma_strategy_names(value: Option<String>)
    ensures
        strategy_setting(value) == Some(TradingStrategy::RandomWalk(TrendType::Unknown)) <==> text_or(value, ""@)
            == "randomwalk"@,
        strategy_setting(value) == Some(TradingStrategy::MeanReversion(TrendType::Unknown)) <==> text_or(
            value,
            ""@,
        ) == "meanreversion"@,
        strategy_setting(value) is None <==> (text_or(value, ""@) != "randomwalk"@ && text_or(value, ""@)
            != "meanreversion"@),
{
    reveal_strlit("randomwalk");
    reveal_strlit("meanreversion");
    if text_or(value, ""@) == "randomwalk"@ {
        assert(text_or(value, ""@)[0] == 'r');
        assert("meanreversion"@[0] == 'm');
    }
}

} // verus!
