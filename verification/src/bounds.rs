//! Numeric-range validation for prices, quantities and timestamps, with
//! named presets. Prices and quantities are fixed-point scaled integers
//! (scale 1e8), exactly as they travel on the wire; each check is a
//! closed-interval test.

use crate::errors::ValidationError;
use vstd::prelude::*;

verus! {

/// Fixed-point scale of wire prices and quantities: units per whole unit.
/// Consumers divide by this to obtain a decimal value.
pub const FIXED_POINT_SCALE: i64 = 100_000_000;

/// Closed numeric ranges for prices, quantities (both fixed-point, scale
/// 1e8) and timestamps (nanoseconds since epoch).
#[derive(Clone, Copy, Debug, PartialEq, Eq, Structural)]
pub struct DataBounds {
    pub min_price: i64,
    pub max_price: i64,
    pub min_quantity: i64,
    pub max_quantity: i64,
    pub min_timestamp: u64,
    pub max_timestamp: u64,
}

impl DataBounds {
    pub open spec fn price_in_range(&self, price: i64) -> bool {
        self.min_price <= price <= self.max_price
    }

    pub open spec fn quantity_in_range(&self, qty: i64) -> bool {
        self.min_quantity <= qty <= self.max_quantity
    }

    pub open spec fn timestamp_in_range(&self, ts: u64) -> bool {
        self.min_timestamp <= ts <= self.max_timestamp
    }

    /// Preset for crypto venues: the smallest tradable granularity is one
    /// fixed-point unit (1e-8), magnitudes reach ten million whole units,
    /// and timestamps must fall in a fixed calendar window (roughly the
    /// decade from 2020), in nanoseconds since epoch.
    pub fn crypto() -> (r: DataBounds)
        ensures
            r == (DataBounds {
                min_price: 1i64,
                max_price: 1_000_000_000_000_000i64,
                min_quantity: 1i64,
                max_quantity: 1_000_000_000_000_000i64,
                min_timestamp: 1_577_836_800_000_000_000u64,
                max_timestamp: 1_893_456_000_000_000_000u64,
            }),
    {
        DataBounds {
            min_price: 1,
            max_price: 1_000_000_000_000_000,
            min_quantity: 1,
            max_quantity: 1_000_000_000_000_000,
            min_timestamp: 1_577_836_800_000_000_000,
            max_timestamp: 1_893_456_000_000_000_000,
        }
    }

    /// Preset for stock venues: prices move in whole cents, quantities in
    /// whole shares up to a billion; same calendar window as crypto.
    pub fn stocks() -> (r: DataBounds)
        ensures
            r == (DataBounds {
                min_price: 1_000_000i64,
                max_price: 1_000_000_000_000_000i64,
                min_quantity: 100_000_000i64,
                max_quantity: 100_000_000_000_000_000i64,
                min_timestamp: 1_577_836_800_000_000_000u64,
                max_timestamp: 1_893_456_000_000_000_000u64,
            }),
    {
        DataBounds {
            min_price: 1_000_000,
            max_price: 1_000_000_000_000_000,
            min_quantity: 100_000_000,
            max_quantity: 100_000_000_000_000_000,
            min_timestamp: 1_577_836_800_000_000_000,
            max_timestamp: 1_893_456_000_000_000_000,
        }
    }

    /// Succeeds exactly when `price` lies in the closed price interval;
    /// otherwise fails carrying the caller's field name and the value.
    pub fn validate_price(&self, price: i64, field: &str) -> (r: Result<(), ValidationError>)
        ensures
            r is Ok <==> self.price_in_range(price),
            match r {
                Ok(()) => true,
                Err(e) => e matches ValidationError::OutOfBounds { field: f, value: v }
                    && f@ == field@ && v == price,
            },
    {
        if price < self.min_price || price > self.max_price {
            return Err(ValidationError::OutOfBounds { field: field.to_owned(), value: price });
        }
        Ok(())
    }

    /// Succeeds exactly when `qty` lies in the closed quantity interval;
    /// otherwise fails carrying the caller's field name and the value.
    pub fn validate_quantity(&self, qty: i64, field: &str) -> (r: Result<(), ValidationError>)
        ensures
            r is Ok <==> self.quantity_in_range(qty),
            match r {
                Ok(()) => true,
                Err(e) => e matches ValidationError::OutOfBounds { field: f, value: v }
                    && f@ == field@ && v == qty,
            },
    {
        if qty < self.min_quantity || qty > self.max_quantity {
            return Err(ValidationError::OutOfBounds { field: field.to_owned(), value: qty });
        }
        Ok(())
    }

    /// Succeeds exactly when `ts` lies in the configured calendar window.
    pub fn validate_timestamp(&self, ts: u64) -> (r: Result<(), ValidationError>)
        ensures
            r is Ok <==> self.timestamp_in_range(ts),
            match r {
                Ok(()) => true,
                Err(e) => e == ValidationError::InvalidTimestamp(ts),
            },
    {
        if ts < self.min_timestamp || ts > self.max_timestamp {
            return Err(ValidationError::InvalidTimestamp(ts));
        }
        Ok(())
    }
}

} // verus!
