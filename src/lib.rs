//! Registry records (people, addresses, households, groups, events) and the
//! rules that map them between their business form, their stored form and
//! the partial forms that users submit.

pub mod address;
pub mod auth;
pub mod calendar;
pub mod collection;
pub mod document;
pub mod error;
pub mod event;
pub mod generator;
pub mod group;
pub mod household;
pub mod listing;
pub mod login;
pub mod oid;
pub mod person;
pub mod routes;
pub mod search;
pub mod validation;
