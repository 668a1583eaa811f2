//! Abstract syntax of SQL data definition statements (`CREATE`, `ALTER`, table and
//! column constraints) with their rendering as SQL text, and a small tokenizer.
pub mod text;
pub mod fragment;
pub mod constraint;
pub mod column;
pub mod create;
pub mod alter;
pub mod tokenizer;
