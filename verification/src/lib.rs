//! Verified core of a small web application that mirrors transaction
//! exports into a ledger workbook kept on a cloud drive.

pub mod error;
pub mod hash;
pub mod ledger;
pub mod microsoft;
pub mod pages;
pub mod redis_data;
pub mod secrets;
pub mod upload;
