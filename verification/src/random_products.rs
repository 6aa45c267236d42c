//! The synthetic generator: a catalog of `RECORD_COUNT` records whose fields are drawn
//! at random from bounded domains.

use vstd::prelude::*;
use crate::draw::{
    fake_buzzword, fake_company_name, fake_sentence, new_identifier, pick_one, random_in_range,
    utc_now,
};
use crate::product::{
    identifiers, pairwise_distinct, Binary64, Product, ProductCategory, ProductCurrency,
    ProductDimensions, Timestamp, BITS_OF_FIVE, BITS_OF_ONE, BITS_OF_TEN, STOCK_HIGH, STOCK_LOW,
};
use crate::sku::{format_sku, sku_text, SKU_HIGH, SKU_LOW};

verus! {

/// How many records a catalog holds.
pub const RECORD_COUNT: usize = 1000;

/// Least number of words in a description.
pub const DESCRIPTION_WORDS_LOW: usize = 20;

/// The bound that the number of words in a description stays below.
pub const DESCRIPTION_WORDS_HIGH: usize = 40;

/// The real-valued draws of one record. The caller makes them, since the library does
/// no arithmetic on binary64 numbers; the library checks them against the domains.
#[derive(Clone, Copy, Debug, PartialEq, Eq, Structural)]
pub struct RealDraws {
    pub price: Binary64,
    pub weight: Binary64,
    pub dimensions: ProductDimensions,
    pub rating: Binary64,
}

impl RealDraws {
    /// Whether the weight and each dimension are at least one and below ten, and the
    /// rating is at least one and below five. The price is unbounded.
    pub open spec fn in_domain(self) -> bool {
        &&& self.weight.within(BITS_OF_ONE, BITS_OF_TEN)
        &&& self.dimensions.in_domain()
        &&& self.rating.within(BITS_OF_ONE, BITS_OF_FIVE)
    }

    /// Tells whether weight, dimensions and rating are inside their domains.
    pub fn is_in_domain(&self) -> (inside: bool)
        ensures
            inside == self.in_domain(),
    {
        self.weight.is_within(BITS_OF_ONE, BITS_OF_TEN) && self.dimensions.is_in_domain()
            && self.rating.is_within(BITS_OF_ONE, BITS_OF_FIVE)
    }
}

/// Everything that is drawn for one record, before the record is put together.
#[derive(Clone, Debug)]
pub struct ProductDraws {
    pub id: u128,
    pub name: String,
    pub brand: String,
    pub sku_number: u32,
    pub description: String,
    pub reals: RealDraws,
    pub stock_quantity: u32,
    pub category: ProductCategory,
    pub created_at: Timestamp,
    pub updated_at: Timestamp,
    pub currency: ProductCurrency,
    pub manufacturer: String,
}

impl ProductDraws {
    /// Whether the number for the stock-keeping code, the stock count and the real
    /// draws are inside their domains.
    pub open spec fn in_domain(&self) -> bool {
        &&& SKU_LOW <= self.sku_number < SKU_HIGH
        &&& STOCK_LOW <= self.stock_quantity < STOCK_HIGH
        &&& self.reals.in_domain()
    }

    /// Tells whether the bounded draws are inside their domains.
    pub fn is_in_domain(&self) -> (inside: bool)
        ensures
            inside == self.in_domain(),
    {
        SKU_LOW <= self.sku_number && self.sku_number < SKU_HIGH && STOCK_LOW
            <= self.stock_quantity && self.stock_quantity < STOCK_HIGH
            && self.reals.is_in_domain()
    }

    /// Whether `product` is the record that these draws make: each field carries its
    /// draw, and the stock-keeping code is the one that carries `sku_number`.
    pub open spec fn builds(&self, product: &Product) -> bool {
        &&& product.id == self.id
        &&& product.name@ == self.name@
        &&& product.brand@ == self.brand@
        &&& product.sku@ == sku_text(self.sku_number as nat)
        &&& product.description@ == self.description@
        &&& product.price == self.reals.price
        &&& product.weight == self.reals.weight
        &&& product.dimensions == self.reals.dimensions
        &&& product.rating == self.reals.rating
        &&& product.stock_quantity == self.stock_quantity
        &&& product.category == self.category
        &&& product.created_at == self.created_at
        &&& product.updated_at == self.updated_at
        &&& product.currency == self.currency
        &&& product.manufacturer@ == self.manufacturer@
    }

    /// Puts the record together.
    pub fn to_product(&self) -> (product: Product)
        ensures
            self.builds(&product),
            self.in_domain() ==> product.in_domain(),
    {
        let product = Product {
            id: self.id,
            name: self.name.clone(),
            brand: self.brand.clone(),
            sku: format_sku(self.sku_number),
            description: self.description.clone(),
            price: self.reals.price,
            weight: self.reals.weight,
            dimensions: self.reals.dimensions,
            rating: self.reals.rating,
            stock_quantity: self.stock_quantity,
            category: self.category,
            created_at: self.created_at,
            updated_at: self.updated_at,
            currency: self.currency,
            manufacturer: self.manufacturer.clone(),
        };
        proof {
            if self.in_domain() {
                lemma_built_in_domain(self, &product);
            }
        }
        product
    }
}

/// A record made from draws inside their domains is inside its domain.
pub proof fn lemma_built_in_domain(draws: &ProductDraws, product: &Product)
    requires
        draws.builds(product),
        draws.in_domain(),
    ensures
        product.in_domain(),
{
    assert(product.sku@ == sku_text(draws.sku_number as nat));
    product.category.lemma_listed();
    product.currency.lemma_listed();
}

/// Why a catalog could not be generated.
#[derive(Clone, Copy, Debug, PartialEq, Eq, Structural)]
pub enum GenerationError {
    /// The number of draws is not `RECORD_COUNT`.
    WrongCount { supplied: usize },
    /// The draws at `index` are the first that leave a domain.
    OutOfDomain { index: usize },
    /// The draws at `second` are the first to repeat an earlier identifier, that of
    /// the draws at `first`.
    DuplicateIdentifier { first: usize, second: usize },
}

/// Whether `products` is a catalog: `RECORD_COUNT` records, each inside its domain,
/// no two with the same identifier.
pub open spec fn is_record_set(products: Seq<Product>) -> bool {
    &&& products.len() == RECORD_COUNT
    &&& forall|i: int| 0 <= i < products.len() ==> (#[trigger] products[i]).in_domain()
    &&& pairwise_distinct(identifiers(products))
}

/// The identifiers in `draws`, in order.
pub open spec fn drawn_identifiers(draws: Seq<ProductDraws>) -> Seq<u128> {
    Seq::new(draws.len(), |i: int| draws[i].id)
}

/// Whether all of `draws` are inside their domains.
pub open spec fn all_in_domain(draws: Seq<ProductDraws>) -> bool {
    forall|i: int| 0 <= i < draws.len() ==> (#[trigger] draws[i]).in_domain()
}

/// Whether the draws at `index` are the first that leave a domain.
pub open spec fn first_out_of_domain(draws: Seq<ProductDraws>, index: int) -> bool {
    &&& 0 <= index < draws.len()
    &&& !draws[index].in_domain()
    &&& all_in_domain(draws.take(index))
}

/// Whether `second` is the first place in `ids` that repeats an earlier value, and
/// `first` the place of that earlier value.
pub open spec fn first_repeat(ids: Seq<u128>, first: int, second: int) -> bool {
    &&& 0 <= first < second < ids.len()
    &&& ids[first] == ids[second]
    &&& pairwise_distinct(ids.take(second))
}

/// What putting `draws` together gives. The draws decide the result: a wrong count is
/// reported first, then the first draws outside a domain, then the first repeated
/// identifier; without any of these the result is the records that the draws make, in
/// order.
pub open spec fn is_assembly(
    draws: Seq<ProductDraws>,
    result: Result<Vec<Product>, GenerationError>,
) -> bool {
    match result {
        Err(GenerationError::WrongCount { supplied }) => {
            &&& draws.len() != RECORD_COUNT
            &&& supplied == draws.len()
        },
        Err(GenerationError::OutOfDomain { index }) => {
            &&& draws.len() == RECORD_COUNT
            &&& first_out_of_domain(draws, index as int)
        },
        Err(GenerationError::DuplicateIdentifier { first, second }) => {
            &&& draws.len() == RECORD_COUNT
            &&& all_in_domain(draws)
            &&& first_repeat(drawn_identifiers(draws), first as int, second as int)
        },
        Ok(products) => {
            &&& draws.len() == RECORD_COUNT
            &&& all_in_domain(draws)
            &&& pairwise_distinct(drawn_identifiers(draws))
            &&& products@.len() == draws.len()
            &&& forall|i: int| 0 <= i < draws.len() ==> (#[trigger] draws[i]).builds(&products@[i])
        },
    }
}

/// Finds the first draws that leave a domain.
pub fn find_out_of_domain(draws: &Vec<ProductDraws>) -> (found: Option<usize>)
    ensures
        match found {
            Some(index) => first_out_of_domain(draws@, index as int),
            None => all_in_domain(draws@),
        },
{
    let mut index: usize = 0;
    while index < draws.len()
        invariant
            index <= draws.len(),
            all_in_domain(draws@.take(index as int)),
        decreases draws.len() - index,
    {
        if !draws[index].is_in_domain() {
            return Some(index);
        }
        proof {
            let before = draws@.take(index as int);
            let after = draws@.take(index + 1);
            assert forall|k: int| 0 <= k < after.len() implies (#[trigger] after[k]).in_domain() by {
                if k < index {
                    assert(before[k].in_domain());
                }
            }
        }
        index += 1;
    }
    assert(draws@.take(index as int) =~= draws@);
    None
}

/// Finds the first identifier that repeats an earlier one, and the place of the
/// earlier one.
pub fn find_repeated_identifier(draws: &Vec<ProductDraws>) -> (found: Option<(usize, usize)>)
    ensures
        match found {
            Some((first, second)) => first_repeat(
                drawn_identifiers(draws@),
                first as int,
                second as int,
            ),
            None => pairwise_distinct(drawn_identifiers(draws@)),
        },
{
    let ghost ids = drawn_identifiers(draws@);
    let mut second: usize = 0;
    while second < draws.len()
        invariant
            second <= draws.len(),
            ids == drawn_identifiers(draws@),
            pairwise_distinct(ids.take(second as int)),
        decreases draws.len() - second,
    {
        let mut first: usize = 0;
        while first < second
            invariant
                first <= second < draws.len(),
                ids == drawn_identifiers(draws@),
                pairwise_distinct(ids.take(second as int)),
                forall|k: int| 0 <= k < first ==> ids[k] != ids[second as int],
            decreases second - first,
        {
            if draws[first].id == draws[second].id {
                return Some((first, second));
            }
            first += 1;
        }
        proof {
            let before = ids.take(second as int);
            let after = ids.take(second + 1);
            assert forall|i: int, j: int| 0 <= i < j < after.len() implies after[i] != after[j] by {
                if j < second {
                    assert(before[i] != before[j]);
                }
            }
        }
        second += 1;
    }
    assert(ids.take(second as int) =~= ids);
    None
}

/// Puts a catalog together from what was drawn for it.
pub fn assemble_products(draws: &Vec<ProductDraws>) -> (result: Result<
    Vec<Product>,
    GenerationError,
>)
    ensures
        is_assembly(draws@, result),
        result matches Ok(products) ==> is_record_set(products@),
{
    if draws.len() != RECORD_COUNT {
        return Err(GenerationError::WrongCount { supplied: draws.len() });
    }
    if let Some(index) = find_out_of_domain(draws) {
        return Err(GenerationError::OutOfDomain { index });
    }
    if let Some((first, second)) = find_repeated_identifier(draws) {
        return Err(GenerationError::DuplicateIdentifier { first, second });
    }
    let mut products: Vec<Product> = Vec::with_capacity(RECORD_COUNT);
    let mut index: usize = 0;
    while index < draws.len()
        invariant
            index <= draws.len(),
            products@.len() == index,
            all_in_domain(draws@),
            forall|i: int| 0 <= i < index ==> (#[trigger] draws@[i]).builds(&products@[i]),
            forall|i: int| 0 <= i < index ==> (#[trigger] products@[i]).in_domain(),
        decreases draws.len() - index,
    {
        let product = draws[index].to_product();
        assert(draws@[index as int].in_domain());
        products.push(product);
        index += 1;
    }
    proof {
        lemma_identifiers_carry_over(draws@, products@);
    }
    Ok(products)
}

/// Records made from draws have the identifiers that were drawn, in the same order.
pub proof fn lemma_identifiers_carry_over(draws: Seq<ProductDraws>, products: Seq<Product>)
    requires
        products.len() == draws.len(),
        forall|i: int| 0 <= i < draws.len() ==> (#[trigger] draws[i]).builds(&products[i]),
    ensures
        identifiers(products) == drawn_identifiers(draws),
{
    assert(identifiers(products) =~= drawn_identifiers(draws));
}

/// Whether the real draws at `index` are the first that leave a domain.
pub open spec fn first_real_out_of_domain(reals: Seq<RealDraws>, index: int) -> bool {
    &&& 0 <= index < reals.len()
    &&& !reals[index].in_domain()
    &&& forall|k: int| 0 <= k < index ==> (#[trigger] reals[k]).in_domain()
}

/// Whether `product` carries the real draws `reals`.
pub open spec fn carries_reals(product: &Product, reals: RealDraws) -> bool {
    &&& product.price == reals.price
    &&& product.weight == reals.weight
    &&& product.dimensions == reals.dimensions
    &&& product.rating == reals.rating
}

/// Draws what a record needs besides its real values.
fn draw_record(reals: RealDraws) -> (draws: ProductDraws)
    ensures
        draws.reals == reals,
        SKU_LOW <= draws.sku_number < SKU_HIGH,
        STOCK_LOW <= draws.stock_quantity < STOCK_HIGH,
{
    let categories = ProductCategory::all();
    let currencies = ProductCurrency::all();
    let name = fake_buzzword();
    let brand = fake_company_name();
    let sku_number = random_in_range(SKU_LOW, SKU_HIGH);
    let description = fake_sentence(DESCRIPTION_WORDS_LOW, DESCRIPTION_WORDS_HIGH);
    let stock_quantity = random_in_range(STOCK_LOW, STOCK_HIGH);
    let category = pick_one(&categories).unwrap();
    let manufacturer = fake_company_name();
    let created_at = utc_now();
    let updated_at = utc_now();
    let currency = pick_one(&currencies).unwrap();
    ProductDraws {
        id: new_identifier(),
        name,
        brand,
        sku_number,
        description,
        reals,
        stock_quantity,
        category,
        created_at,
        updated_at,
        currency,
        manufacturer,
    }
}

/// Generates a catalog. The caller supplies the real-valued draws, one set for each of
/// the `RECORD_COUNT` records; everything else is drawn here.
///
/// A wrong number of real draws is an error, and so are real draws outside their
/// domains; the first such is reported. Two records that draw the same identifier are an
/// error too: which identifiers come is not for the caller to decide, so the contract
/// says of this error and of success only what holds whenever they come.
pub fn create_random_products(reals: &Vec<RealDraws>) -> (result: Result<
    Vec<Product>,
    GenerationError,
>)
    ensures
        match result {
            Err(GenerationError::WrongCount { supplied }) => {
                &&& reals@.len() != RECORD_COUNT
                &&& supplied == reals@.len()
            },
            Err(GenerationError::OutOfDomain { index }) => {
                &&& reals@.len() == RECORD_COUNT
                &&& first_real_out_of_domain(reals@, index as int)
            },
            Err(GenerationError::DuplicateIdentifier { first, second }) => {
                &&& reals@.len() == RECORD_COUNT
                &&& forall|i: int| 0 <= i < reals@.len() ==> (#[trigger] reals@[i]).in_domain()
                &&& first < second < RECORD_COUNT
            },
            Ok(products) => {
                &&& reals@.len() == RECORD_COUNT
                &&& forall|i: int| 0 <= i < reals@.len() ==> (#[trigger] reals@[i]).in_domain()
                &&& is_record_set(products@)
                &&& forall|i: int|
                    0 <= i < RECORD_COUNT ==> carries_reals(&products@[i], #[trigger] reals@[i])
            },
        },
{
    if reals.len() != RECORD_COUNT {
        return Err(GenerationError::WrongCount { supplied: reals.len() });
    }
    let mut draws: Vec<ProductDraws> = Vec::with_capacity(RECORD_COUNT);
    let mut index: usize = 0;
    while index < RECORD_COUNT
        invariant
            index <= RECORD_COUNT,
            reals@.len() == RECORD_COUNT,
            draws@.len() == index,
            forall|i: int| 0 <= i < index ==> (#[trigger] draws@[i]).reals == reals@[i],
            forall|i: int| 0 <= i < index ==> (#[trigger] draws@[i]).in_domain(),
        decreases RECORD_COUNT - index,
    {
        if !reals[index].is_in_domain() {
            assert forall|k: int| 0 <= k < index implies (#[trigger] reals@[k]).in_domain() by {
                assert(draws@[k].in_domain());
            }
            return Err(GenerationError::OutOfDomain { index });
        }
        draws.push(draw_record(reals[index]));
        index += 1;
    }
    let result = assemble_products(&draws);
    proof {
        assert forall|i: int| 0 <= i < reals@.len() implies (#[trigger] reals@[i]).in_domain() by {
            assert(draws@[i].in_domain());
        }
        if let Err(GenerationError::OutOfDomain { index }) = result {
            assert(draws@[index as int].in_domain());
        }
        if result is Ok {
            let products = result->Ok_0;
            assert forall|i: int| 0 <= i < RECORD_COUNT implies carries_reals(
                &products@[i],
                #[trigger] reals@[i],
            ) by {
                assert(draws@[i].builds(&products@[i]));
            }
        }
    }
    result
}

} // verus!
