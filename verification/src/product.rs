//! The record model: one catalog entry and the value domains of its fields.

use vstd::prelude::*;
use crate::sku::is_sku;

verus! {

/// Bit pattern of the binary64 number one: the least weight, dimension and rating.
pub const BITS_OF_ONE: u64 = 0x3FF0_0000_0000_0000;

/// Bit pattern of the binary64 number five: the bound that every rating stays below.
pub const BITS_OF_FIVE: u64 = 0x4014_0000_0000_0000;

/// Bit pattern of the binary64 number ten: the bound that every weight and dimension
/// stays below.
pub const BITS_OF_TEN: u64 = 0x4024_0000_0000_0000;

/// Least stock count of a record.
pub const STOCK_LOW: u32 = 1;

/// The bound that every stock count stays below.
pub const STOCK_HIGH: u32 = 100;

/// A binary64 number (IEEE 754), carried as its bit pattern.
///
/// The library stores such numbers and compares them with bounds; it does no arithmetic
/// on them. Among the non-negative binary64 numbers, infinity included, a greater number
/// has the greater bit pattern, and every negative number and every NaN has a bit pattern
/// above that of infinity or with the sign bit set. So for two positive finite bounds
/// `low < high`, a number lies in the half-open interval from `low` to `high` exactly when
/// its bit pattern lies between theirs: that is `within`.
#[derive(Clone, Copy, Debug, PartialEq, Eq, Structural)]
pub struct Binary64 {
    pub bits: u64,
}

impl Binary64 {
    /// Whether the bit pattern is at least `low` and below `high`.
    pub open spec fn within(self, low: u64, high: u64) -> bool {
        low <= self.bits < high
    }

    /// Tells whether the bit pattern is at least `low` and below `high`.
    pub fn is_within(&self, low: u64, high: u64) -> (inside: bool)
        ensures
            inside == self.within(low, high),
    {
        low <= self.bits && self.bits < high
    }
}

/// A moment in UTC: the whole seconds since the Unix epoch, and the nanoseconds past
/// that second.
#[derive(Clone, Copy, Debug, PartialEq, Eq, Structural)]
pub struct Timestamp {
    pub seconds: i64,
    pub nanoseconds: u32,
}

/// What kind of goods a record is.
#[derive(Clone, Copy, Debug, PartialEq, Eq, Structural)]
pub enum ProductCategory {
    Electronics,
    Clothing,
    HomeGoods,
    Books,
    Toys,
}

impl ProductCategory {
    /// Every category, in declaration order.
    pub open spec fn variants() -> Seq<ProductCategory> {
        seq![
            ProductCategory::Electronics,
            ProductCategory::Clothing,
            ProductCategory::HomeGoods,
            ProductCategory::Books,
            ProductCategory::Toys,
        ]
    }

    /// Lists every category, in declaration order.
    pub fn all() -> (list: Vec<ProductCategory>)
        ensures
            list@ == Self::variants(),
    {
        let list = vec![
            ProductCategory::Electronics,
            ProductCategory::Clothing,
            ProductCategory::HomeGoods,
            ProductCategory::Books,
            ProductCategory::Toys,
        ];
        assert(list@ =~= Self::variants());
        list
    }

    /// The enumeration is closed: whatever the category, `variants` lists it.
    pub proof fn lemma_listed(self)
        ensures
            Self::variants().contains(self),
    {
        let list = Self::variants();
        match self {
            ProductCategory::Electronics => assert(list[0] == self),
            ProductCategory::Clothing => assert(list[1] == self),
            ProductCategory::HomeGoods => assert(list[2] == self),
            ProductCategory::Books => assert(list[3] == self),
            ProductCategory::Toys => assert(list[4] == self),
        }
    }
}

/// The currency a record's price is quoted in.
#[derive(Clone, Copy, Debug, PartialEq, Eq, Structural)]
pub enum ProductCurrency {
    USD,
    GBP,
    EUR,
    JPY,
    AUD,
    CAD,
}

impl ProductCurrency {
    /// Every currency, in declaration order.
    pub open spec fn variants() -> Seq<ProductCurrency> {
        seq![
            ProductCurrency::USD,
            ProductCurrency::GBP,
            ProductCurrency::EUR,
            ProductCurrency::JPY,
            ProductCurrency::AUD,
            ProductCurrency::CAD,
        ]
    }

    /// Lists every currency, in declaration order.
    pub fn all() -> (list: Vec<ProductCurrency>)
        ensures
            list@ == Self::variants(),
    {
        let list = vec![
            ProductCurrency::USD,
            ProductCurrency::GBP,
            ProductCurrency::EUR,
            ProductCurrency::JPY,
            ProductCurrency::AUD,
            ProductCurrency::CAD,
        ];
        assert(list@ =~= Self::variants());
        list
    }

    /// The enumeration is closed: whatever the currency, `variants` lists it.
    pub proof fn lemma_listed(self)
        ensures
            Self::variants().contains(self),
    {
        let list = Self::variants();
        match self {
            ProductCurrency::USD => assert(list[0] == self),
            ProductCurrency::GBP => assert(list[1] == self),
            ProductCurrency::EUR => assert(list[2] == self),
            ProductCurrency::JPY => assert(list[3] == self),
            ProductCurrency::AUD => assert(list[4] == self),
            ProductCurrency::CAD => assert(list[5] == self),
        }
    }
}

/// The size of a product along its three axes.
#[derive(Clone, Copy, Debug, PartialEq, Eq, Structural)]
pub struct ProductDimensions {
    pub length: Binary64,
    pub width: Binary64,
    pub height: Binary64,
}

impl ProductDimensions {
    /// Puts the three sizes together, as they are.
    pub fn new(length: Binary64, width: Binary64, height: Binary64) -> (dimensions: Self)
        ensures
            dimensions == (ProductDimensions { length, width, height }),
    {
        Self { length, width, height }
    }

    /// Whether each of the three sizes is at least one and below ten.
    pub open spec fn in_domain(self) -> bool {
        &&& self.length.within(BITS_OF_ONE, BITS_OF_TEN)
        &&& self.width.within(BITS_OF_ONE, BITS_OF_TEN)
        &&& self.height.within(BITS_OF_ONE, BITS_OF_TEN)
    }

    /// Tells whether each of the three sizes is at least one and below ten.
    pub fn is_in_domain(&self) -> (inside: bool)
        ensures
            inside == self.in_domain(),
    {
        self.length.is_within(BITS_OF_ONE, BITS_OF_TEN) && self.width.is_within(
            BITS_OF_ONE,
            BITS_OF_TEN,
        ) && self.height.is_within(BITS_OF_ONE, BITS_OF_TEN)
    }
}

/// One catalog entry.
#[derive(Clone, Debug)]
pub struct Product {
    pub id: u128,
    pub name: String,
    pub brand: String,
    pub sku: String,
    pub description: String,
    pub price: Binary64,
    pub weight: Binary64,
    pub dimensions: ProductDimensions,
    pub rating: Binary64,
    pub stock_quantity: u32,
    pub category: ProductCategory,
    pub created_at: Timestamp,
    pub updated_at: Timestamp,
    pub currency: ProductCurrency,
    pub manufacturer: String,
}

impl Product {
    /// Whether every bounded field is inside its domain: the stock-keeping code is
    /// well formed, the stock count is at least `STOCK_LOW` and below `STOCK_HIGH`, the
    /// weight and each dimension are at least one and below ten, the rating is at least
    /// one and below five, and category and currency are members of their enumerations.
    pub open spec fn in_domain(&self) -> bool {
        &&& is_sku(self.sku@)
        &&& STOCK_LOW <= self.stock_quantity < STOCK_HIGH
        &&& self.weight.within(BITS_OF_ONE, BITS_OF_TEN)
        &&& self.dimensions.in_domain()
        &&& self.rating.within(BITS_OF_ONE, BITS_OF_FIVE)
        &&& ProductCategory::variants().contains(self.category)
        &&& ProductCurrency::variants().contains(self.currency)
    }
}

/// The identifiers of `products`, in order.
pub open spec fn identifiers(products: Seq<Product>) -> Seq<u128> {
    Seq::new(products.len(), |i: int| products[i].id)
}

/// Whether no value occurs twice in `ids`.
pub open spec fn pairwise_distinct(ids: Seq<u128>) -> bool {
    forall|i: int, j: int| 0 <= i < j < ids.len() ==> ids[i] != ids[j]
}

} // verus!
