//! Parts that several replies share.

use vstd::prelude::*;

verus! {

/// What a list reply says about itself.
#[derive(Debug)]
pub struct Meta {
    pub page: Page,
}

/// The page of a list reply.
#[derive(Debug)]
pub struct Page {
    pub total: i32,
    pub size: i32,
    pub number: i32,
}

} // verus!
