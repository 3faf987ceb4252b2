//! Field validation for the two mutating request payloads.
//!
//! Validation is an explicit function per request type returning the list of
//! field-level violations, invoked once at the top of each mutating
//! operation before the store is touched.

use vstd::prelude::*;
use vstd::string::StringExecFns;
use crate::models::{CreateOrderRequest, UpdateOrderRequest, valid_name, NAME_MAX_CHARS};

verus! {

/// One failed field constraint of a request payload.
#[derive(Clone, Copy, Debug, PartialEq, Eq, Structural)]
pub enum FieldViolation {
    CustomerNameLength,
    ProductNameLength,
    QuantityRange,
    UnitPriceRange,
}

impl FieldViolation {
    /// The constraint this violation restates, word for word as the caller
    /// sees it.
    pub open spec fn spec_message(self) -> Seq<char> {
        match self {
            FieldViolation::CustomerNameLength
                => "Customer name must be between 1 and 100 characters"@,
            FieldViolation::ProductNameLength
                => "Product name must be between 1 and 100 characters"@,
            FieldViolation::QuantityRange => "Quantity must be at least 1"@,
            FieldViolation::UnitPriceRange => "Unit price must be greater than 0"@,
        }
    }

    /// Message restating the failed constraint.
    pub fn message(&self) -> (m: &'static str)
        ensures
            m@ == self.spec_message(),
    {
        match self {
            FieldViolation::CustomerNameLength
                => "Customer name must be between 1 and 100 characters",
            FieldViolation::ProductNameLength
                => "Product name must be between 1 and 100 characters",
            FieldViolation::QuantityRange => "Quantity must be at least 1",
            FieldViolation::UnitPriceRange => "Unit price must be greater than 0",
        }
    }
}

/// Whether the character count of `s` lies within the name bounds.
pub fn name_length_ok(s: &str) -> (b: bool)
    ensures
        b == valid_name(s@),
{
    let mut n: usize = 0;
    for c in it: s.chars()
        invariant
            n == it.index(),
            it.seq() == s@,
            n <= NAME_MAX_CHARS,
    {
        if n == NAME_MAX_CHARS {
            return false;
        }
        n = n + 1;
    }
    n >= 1
}

/// The violations a create payload incurs, in field order.
pub open spec fn spec_create_violations(r: CreateOrderRequest) -> Seq<FieldViolation> {
    (if !valid_name(r.customer_name@) {
        seq![FieldViolation::CustomerNameLength]
    } else {
        Seq::empty()
    }) + (if !valid_name(r.product_name@) {
        seq![FieldViolation::ProductNameLength]
    } else {
        Seq::empty()
    }) + (if !(r.quantity >= 1) {
        seq![FieldViolation::QuantityRange]
    } else {
        Seq::empty()
    }) + (if !r.unit_price.is_valid_price() {
        seq![FieldViolation::UnitPriceRange]
    } else {
        Seq::empty()
    })
}

/// The violations of a create payload, in field order; empty exactly when
/// the payload is valid.
pub fn validate_create(request: &CreateOrderRequest) -> (vs: Vec<FieldViolation>)
    ensures
        vs@ == spec_create_violations(*request),
        vs@.len() == 0 <==> request.is_valid(),
{
    let mut vs: Vec<FieldViolation> = Vec::new();
    if !name_length_ok(request.customer_name.as_str()) {
        vs.push(FieldViolation::CustomerNameLength);
    }
    if !name_length_ok(request.product_name.as_str()) {
        vs.push(FieldViolation::ProductNameLength);
    }
    if !(request.quantity >= 1) {
        vs.push(FieldViolation::QuantityRange);
    }
    if !request.unit_price.check_valid_price() {
        vs.push(FieldViolation::UnitPriceRange);
    }
    proof {
        assert(vs@ =~= spec_create_violations(*request));
    }
    vs
}

/// The violations an update payload incurs, in field order: only present
/// fields are constrained.
pub open spec fn spec_update_violations(r: UpdateOrderRequest) -> Seq<FieldViolation> {
    (if r.customer_name matches Some(n) && !valid_name(n@) {
        seq![FieldViolation::CustomerNameLength]
    } else {
        Seq::empty()
    }) + (if r.product_name matches Some(n) && !valid_name(n@) {
        seq![FieldViolation::ProductNameLength]
    } else {
        Seq::empty()
    }) + (if r.quantity matches Some(q) && !(q >= 1) {
        seq![FieldViolation::QuantityRange]
    } else {
        Seq::empty()
    }) + (if r.unit_price matches Some(p) && !p.is_valid_price() {
        seq![FieldViolation::UnitPriceRange]
    } else {
        Seq::empty()
    })
}

/// The violations of an update payload: each present field is held to the
/// same constraint the create operation puts on it.
pub fn validate_update(request: &UpdateOrderRequest) -> (vs: Vec<FieldViolation>)
    ensures
        vs@ == spec_update_violations(*request),
        vs@.len() == 0 <==> request.is_valid(),
{
    let mut vs: Vec<FieldViolation> = Vec::new();
    if let Some(name) = &request.customer_name {
        if !name_length_ok(name.as_str()) {
            vs.push(FieldViolation::CustomerNameLength);
        }
    }
    if let Some(name) = &request.product_name {
        if !name_length_ok(name.as_str()) {
            vs.push(FieldViolation::ProductNameLength);
        }
    }
    if let Some(q) = &request.quantity {
        if !(*q >= 1) {
            vs.push(FieldViolation::QuantityRange);
        }
    }
    if let Some(p) = &request.unit_price {
        if !p.check_valid_price() {
            vs.push(FieldViolation::UnitPriceRange);
        }
    }
    proof {
        assert(vs@ =~= spec_update_violations(*request));
    }
    vs
}

/// The messages of `vs` in order, separated by `"; "`.
pub open spec fn spec_join_violations(vs: Seq<FieldViolation>) -> Seq<char>
    decreases vs.len(),
{
    if vs.len() == 0 {
        Seq::empty()
    } else if vs.len() == 1 {
        vs[0].spec_message()
    } else {
        spec_join_violations(vs.drop_last()) + "; "@ + vs.last().spec_message()
    }
}

/// One diagnostic line out of a list of violations: the messages in order,
/// separated by `"; "`.
pub fn join_violations(vs: &Vec<FieldViolation>) -> (s: String)
    ensures
        s@ == spec_join_violations(vs@),
{
    let mut s = String::new();
    let mut i: usize = 0;
    while i < vs.len()
        invariant
            i <= vs@.len(),
            s@ == spec_join_violations(vs@.take(i as int)),
        decreases vs@.len() - i,
    {
        if i > 0 {
            s.append("; ");
        }
        s.append(vs[i].message());
        proof {
            assert(vs@.take(i + 1).drop_last() =~= vs@.take(i as int));
            assert(vs@.take(i + 1).last() == vs@[i as int]);
            if i == 0 {
                assert(s@ =~= spec_join_violations(vs@.take(i + 1)));
            }
        }
        i = i + 1;
    }
    proof {
        assert(vs@.take(vs@.len() as int) =~= vs@);
    }
    s
}

} // verus!
