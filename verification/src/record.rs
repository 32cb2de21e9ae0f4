//! One row of the drinks table.

use vstd::prelude::*;

verus! {

/// One row of the table: a country and its four consumption figures.
///
/// The engine keeps the last column as a 64-bit IEEE-754 number. This
/// library never computes with it, so a record carries its bit pattern and
/// two records agree on the column exactly when the patterns are equal.
#[derive(Debug, Clone, PartialEq, Eq)]
pub struct Record {
    pub country: String,
    pub beer_servings: i32,
    pub spirit_servings: i32,
    pub wine_servings: i32,
    pub total_litres_bits: u64,
}

/// What a record holds, with the country as a sequence of characters.
pub struct RecordView {
    pub country: Seq<char>,
    pub beer_servings: i32,
    pub spirit_servings: i32,
    pub wine_servings: i32,
    pub total_litres_bits: u64,
}

impl View for Record {
    type V = RecordView;

    open spec fn view(&self) -> RecordView {
        RecordView {
            country: self.country@,
            beer_servings: self.beer_servings,
            spirit_servings: self.spirit_servings,
            wine_servings: self.wine_servings,
            total_litres_bits: self.total_litres_bits,
        }
    }
}

} // verus!
