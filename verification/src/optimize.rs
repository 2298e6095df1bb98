//! Names and settings of the parameter search: the loss functions by which a
//! replay is judged, and the spaces that are searched.

use crate::decimal::{decimal_quotient, Decimal};
use crate::types::BacktestResult;
use vstd::prelude::*;
use vstd::string::*;

verus! {

/// The loss a replay gets where the measure it is judged by is not above
/// zero.
pub open spec fn worst_loss() -> Decimal {
    Decimal::spec_new(999, 0)
}

/// Which loss function judges a replay.
#[derive(Debug, Clone, PartialEq, Eq)]
pub enum LossFunctionType {
    Sharpe,
    Sortino,
    Calmar,
    ProfitFactor,
    /// A loss function of the user's own, by name.
    Custom(String),
}

impl LossFunctionType {
    /// The name of the loss function.
    pub open spec fn spec_name(self) -> Seq<char> {
        match self {
            LossFunctionType::Sharpe => "Sharpe"@,
            LossFunctionType::Sortino => "Sortino"@,
            LossFunctionType::Calmar => "Calmar"@,
            LossFunctionType::ProfitFactor => "ProfitFactor"@,
            LossFunctionType::Custom(s) => s@,
        }
    }

    /// The name of the loss function.
    pub fn as_str(&self) -> (r: &str)
        ensures
            r@ == self.spec_name(),
    {
        match self {
            LossFunctionType::Sharpe => "Sharpe",
            LossFunctionType::Sortino => "Sortino",
            LossFunctionType::Calmar => "Calmar",
            LossFunctionType::ProfitFactor => "ProfitFactor",
            LossFunctionType::Custom(s) => s.as_str(),
        }
    }
}

/// A loss function: the lower its value, the better the replay.
pub trait LossFunction {
    /// The loss of a replay. A loss function that does not say what it
    /// computes is taken as some function of itself and the replay.
    open spec fn spec_calculate(&self, result: &BacktestResult) -> Decimal {
        arbitrary::<spec_fn(&Self, &BacktestResult) -> Decimal>()(self, result)
    }

    /// The name of the loss function.
    fn name(&self) -> &'static str;

    /// The loss of a replay.
    fn calculate(&self, result: &BacktestResult) -> (r: Decimal)
        ensures
            r == self.spec_calculate(result),
    ;
}

/// Judges by the Sharpe ratio: the loss is its negative.
pub struct SharpeLoss;

/// Judges by the Sharpe ratio where it is above zero.
pub struct SortinoLoss;

/// Judges by the Sharpe ratio over the drawdown.
pub struct CalmarLoss;

/// Judges by the profit factor.
pub struct ProfitFactorLoss;

impl LossFunction for SharpeLoss {
    open spec fn spec_calculate(&self, result: &BacktestResult) -> Decimal {
        result.sharpe_ratio.spec_neg()
    }

    fn name(&self) -> (r: &'static str)
        ensures
            r@ == "Sharpe"@,
    {
        "Sharpe"
    }

    fn calculate(&self, result: &BacktestResult) -> (r: Decimal) {
        result.sharpe_ratio.neg()
    }
}

impl LossFunction for SortinoLoss {
    open spec fn spec_calculate(&self, result: &BacktestResult) -> Decimal {
        if result.sharpe_ratio.units() > 0 {
            result.sharpe_ratio.spec_neg()
        } else {
            worst_loss()
        }
    }

    fn name(&self) -> (r: &'static str)
        ensures
            r@ == "Sortino"@,
    {
        "Sortino"
    }

    fn calculate(&self, result: &BacktestResult) -> (r: Decimal) {
        if result.sharpe_ratio.is_positive() {
            result.sharpe_ratio.neg()
        } else {
            Decimal::from_i64(999)
        }
    }
}

impl LossFunction for CalmarLoss {
    open spec fn spec_calculate(&self, result: &BacktestResult) -> Decimal {
        if result.sharpe_ratio.units() > 0 {
            match decimal_quotient(result.sharpe_ratio.spec_neg(), result.max_drawdown.spec_abs()) {
                Some(q) => q,
                None => worst_loss(),
            }
        } else {
            worst_loss()
        }
    }

    fn name(&self) -> (r: &'static str)
        ensures
            r@ == "Calmar"@,
    {
        "Calmar"
    }

    fn calculate(&self, result: &BacktestResult) -> (r: Decimal) {
        if result.sharpe_ratio.is_positive() {
            match result.sharpe_ratio.neg().checked_div(result.max_drawdown.abs()) {
                Some(q) => q,
                None => Decimal::from_i64(999),
            }
        } else {
            Decimal::from_i64(999)
        }
    }
}

impl LossFunction for ProfitFactorLoss {
    open spec fn spec_calculate(&self, result: &BacktestResult) -> Decimal {
        if result.profit_factor.units() > 0 {
            result.profit_factor.spec_neg()
        } else {
            worst_loss()
        }
    }

    fn name(&self) -> (r: &'static str)
        ensures
            r@ == "ProfitFactor"@,
    {
        "ProfitFactor"
    }

    fn calculate(&self, result: &BacktestResult) -> (r: Decimal) {
        if result.profit_factor.is_positive() {
            result.profit_factor.neg()
        } else {
            Decimal::from_i64(999)
        }
    }
}

/// A space of parameters to search, by the name of the parameter.
#[derive(Debug, Clone, PartialEq, Eq)]
pub enum HyperoptSpace {
    Buy(String),
    Sell(String),
    Protection(String),
    Trailing(String),
    ROI(String),
    Stoploss(String),
}

/// A named set of spaces.
#[derive(Debug, Clone, PartialEq, Eq)]
pub struct ParameterSpace {
    pub name: String,
    pub space: Vec<HyperoptSpace>,
}

impl ParameterSpace {
    /// A set of the given name without spaces.
    pub fn new(name: String) -> (r: Self)
        ensures
            r.name == name,
            r.space@.len() == 0,
    {
        ParameterSpace { name, space: Vec::new() }
    }

    /// The set with its spaces replaced by the given ones.
    pub fn with_spaces(self, spaces: Vec<HyperoptSpace>) -> (r: Self)
        ensures
            r.name == self.name,
            r.space == spaces,
    {
        ParameterSpace { name: self.name, space: spaces }
    }
}

/// The settings of a parameter search.
#[derive(Debug, Clone, PartialEq, Eq)]
pub struct HyperoptConfig {
    pub epochs: usize,
    pub spaces: Vec<String>,
    pub strategy: String,
}

/// A parameter search.
pub struct Hyperopt {
    config: HyperoptConfig,
}

impl Hyperopt {
    /// The settings of the search.
    pub closed spec fn spec_config(&self) -> HyperoptConfig {
        self.config
    }

    /// A search with the given settings.
    pub fn new(config: HyperoptConfig) -> (r: Self)
        ensures
            r.spec_config() == config,
    {
        Hyperopt { config }
    }

    /// The settings of the search.
    pub fn config(&self) -> (r: &HyperoptConfig)
        ensures
            *r == self.spec_config(),
    {
        &self.config
    }
}

/// The settings of an optimizer.
#[derive(Debug, Clone, Copy, PartialEq, Eq)]
pub struct OptimizerConfig {
    pub epochs: usize,
}

/// An optimizer that tries parameters at random.
pub struct RandomOptimizer;

impl RandomOptimizer {
    /// The optimizer.
    pub fn new() -> (r: Self)
        ensures
            r == RandomOptimizer,
    {
        RandomOptimizer
    }

    /// The name of the optimizer.
    pub fn name(&self) -> (r: &'static str)
        ensures
            r@ == "Random"@,
    {
        "Random"
    }
}

} // verus!
