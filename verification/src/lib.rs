//! Household-finance domain logic: money, dates, ownership, imports, income, life events,
//! settings, error handling, and the decisions the background tasks and the lifecycle make.

pub mod error;
pub mod money;
pub mod text;
pub mod iso_date;
pub mod life_events;
pub mod people;
pub mod accounts;
pub mod import;
pub mod income;
pub mod settings;
pub mod brokerage;
pub mod categories;
pub mod commitments;
pub mod crons;
pub mod currencies;
pub mod equity;
pub mod forecast;
pub mod merchants;
pub mod providers;
pub mod rules;
pub mod stock_prices;
pub mod strategies;
pub mod lifecycle;
pub mod tasks;
pub mod reports;
pub mod rule_engine;
pub mod sync;
pub mod calendar;
pub mod report_dates;
pub mod provider_poll;
pub mod call_sites;
pub mod balance_walk;
pub mod ledger;
pub mod sweeps;
pub mod balance_delta;
