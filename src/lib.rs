//! Safe building blocks for SQLite loadable extensions: status codes and errors,
//! C string conversion, result contexts, the aggregate/window callback protocol,
//! virtual-table index negotiation and extension entry points.

mod aggregate;
mod cstr;
mod error;
mod extension;
mod function;
mod index_info;
mod value;

pub use aggregate::{lemma_step_then_inverse, AggregateContext, AggregateFunction, RowCount};
pub use cstr::{
    c_string_body, c_string_of, is_first_nul, lemma_c_string_round_trip, lemma_interior_nul_rejected,
    str_from_sqlite3, str_to_sqlite3, text_of_c_string,
};
pub use error::{
    decimal_text, digits, is_success_code, trunc_div, trunc_rem, utf8_message, version_message,
    Error, NulError, Utf8Error, SQLITE_DONE, SQLITE_ERROR, SQLITE_MISUSE, SQLITE_OK,
    SQLITE_OK_LOAD_PERMANENTLY, SQLITE_ROW,
};
pub use extension::{
    after_prefix, configure, configure_spec, export_count, is_word, lemma_persistent_needs_export,
    parse_after, parse_directives, parse_from, prepend, export_symbol, first_export, has_persistent,
    load_result, load_result_spec, lower_of, lowercase_letters, non_lowercase_class,
    symbol_from_lowered, symbol_text, AttrToken, ConfigError, EntryPoint, ExtAttr, PERSISTENT_LOAD_VERSION,
};
pub use function::{call_scalar, Context, ContextValue, ScalarFunction, ToContextResult};
pub use index_info::{
    argv_valid, delivers, holds_slot, lemma_selected_constraint_delivered_once, ConstraintOp, DistinctMode, IndexInfo, IndexInfoConstraint,
    RHS_VERSION, SQLITE_NOTFOUND, SQLITE_RANGE,
};
pub use value::{Value, ValueRef};





use vstd::prelude::*;

verus! {

/// A borrowed SQLite database connection, identified by its engine handle.
///
/// The engine owns the connection; this value never frees it.
pub struct Connection {
    db: usize,
}

impl Connection {
    /// Wraps the engine handle of an open connection.
    pub fn from_ptr(db: usize) -> (r: Connection)
        ensures
            r.handle() == db,
    {
        Connection { db }
    }

    /// The engine handle this connection refers to.
    pub closed spec fn handle(&self) -> usize {
        self.db
    }

    /// Get the underlying SQLite handle.
    pub fn as_ptr(&self) -> (r: usize)
        ensures
            r == self.handle(),
    {
        self.db
    }

    /// Get the underlying SQLite handle, for calls that mutate the connection.
    pub fn as_mut_ptr(&mut self) -> (r: usize)
        ensures
            r == old(self).handle(),
            *final(self) == *old(self),
    {
        self.db
    }
}

/// Indicate the risk level for a function or virtual table.
///
/// The engine's default is `Innocuous` when TRUSTED_SCHEMA is on and `DirectOnly`
/// otherwise.
#[derive(Debug, Eq, PartialEq, Copy, Clone)]
pub enum RiskLevel {
    /// Can only read content from the database file in which it resides, and can
    /// only alter the database in which it resides.
    Innocuous,
    /// Has side effects outside the database file, or returns information from
    /// outside of it.
    DirectOnly,
}

} // verus!
