//! A ledger of virtual money for the holders of issued cards.
//!
//! Every holder has an account with a balance that is never negative. Every
//! credit and debit is an entry of one shared ledger, numbered upwards from
//! 1. Platforms act on an account with a signed token. Holders open and
//! close leveraged positions against prices that a quote provider supplies.
//!
//! The modules, leaf first: [`decimal`] (numbers), [`error`], [`structure`]
//! (records), [`card`] (issuing), [`token`] (signing), [`calendar`],
//! [`authorizer`] (connections), [`ledger`] (sequence numbers), [`balance`]
//! (credits and debits), [`position`] (open and close), [`handler`] and
//! [`stock`] (the operations on the store), and [`laws`] (what holds of all
//! of them).

pub mod decimal;
pub mod error;
pub mod structure;
pub mod card;
pub mod token;
pub mod calendar;
pub mod authorizer;
pub mod ledger;
pub mod balance;
pub mod position;
pub mod handler;
pub mod stock;
pub mod laws;
