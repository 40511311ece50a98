use vstd::prelude::*;

use crate::error::ApiError;
use crate::ids::{fresh_id, Id};

verus! {

/// Prices are exact decimals of rust_decimal; the rules here only carry them.
#[verifier::external_type_specification]
#[verifier::external_body]
pub struct ExDecimal(rust_decimal::Decimal);

/// Relies on the `Clone` that rust_decimal derives beside `Copy`: a clone is
/// the same value.
pub assume_specification[ <rust_decimal::Decimal as Clone>::clone ](d: &rust_decimal::Decimal) -> (r: rust_decimal::Decimal)
    ensures
        r == *d,
;

/// A product of the catalog.
#[derive(Clone, Debug, PartialEq)]
pub struct Product {
    pub id: Id,
    pub name: String,
    pub description: Option<String>,
    pub price: rust_decimal::Decimal,
    pub stock: i32,
}

/// The fields a client sends to add a product.
#[derive(Clone, Debug, PartialEq)]
pub struct CreateProductRequest {
    pub name: String,
    pub description: Option<String>,
    pub price: rust_decimal::Decimal,
    pub stock: i32,
}

impl Product {
    /// Stock never goes below zero.
    pub open spec fn wf(&self) -> bool {
        self.stock >= 0
    }

    /// Builds a new product with a fresh identifier. A negative stock is
    /// refused: the catalog never holds one.
    pub fn create_product(
        name: &str,
        description: Option<&str>,
        price: rust_decimal::Decimal,
        stock: i32,
    ) -> (r: Result<Product, ApiError>)
        ensures
            stock < 0 ==> r == Err::<Product, ApiError>(ApiError::Invalid),
            stock >= 0 ==> r is Ok,
            r is Ok ==> {
                let p = r->Ok_0;
                &&& p.name@ == name@
                &&& p.description is Some <==> description is Some
                &&& description is Some ==> p.description->Some_0@ == description->Some_0@
                &&& p.price == price
                &&& p.stock == stock
                &&& p.wf()
            },
    {
        if stock < 0 {
            return Err(ApiError::Invalid);
        }
        let description = match description {
            Some(d) => Some(d.to_owned()),
            None => None,
        };
        Ok(Product { id: fresh_id(), name: name.to_owned(), description, price, stock })
    }
}

} // verus!
