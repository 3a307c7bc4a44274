//! The stored form of resource references.

use vstd::prelude::*;

use crate::domain::catalog::ResourceRef;

verus! {

/// Stored form of a [`ResourceRef`].
#[derive(Clone, Debug)]
pub struct ResourceRefDto {
    pub id: String,
    pub variant_id: Option<String>,
}

/// Clones an optional string, keeping its value.
pub fn clone_opt_string(value: &Option<String>) -> (copy: Option<String>)
    ensures
        copy == *value,
{
    match value {
        Some(text) => Some(text.clone()),
        None => None,
    }
}

impl ResourceRefDto {
    /// `self` stores exactly `value`.
    pub open spec fn encodes(self, value: ResourceRef) -> bool {
        self.id == value.id && self.variant_id == value.variant_id
    }

    /// The reference that `self` stores.
    pub open spec fn spec_decode(self) -> ResourceRef {
        ResourceRef { id: self.id, variant_id: self.variant_id }
    }

    /// The stored form of `value`.
    pub fn from_domain(value: &ResourceRef) -> (dto: Self)
        ensures
            dto.encodes(*value),
    {
        ResourceRefDto { id: value.id.clone(), variant_id: clone_opt_string(&value.variant_id) }
    }

    /// The reference that `self` stores; every stored reference decodes.
    pub fn into_domain(self) -> (value: ResourceRef)
        ensures
            value == self.spec_decode(),
    {
        ResourceRef { id: self.id, variant_id: self.variant_id }
    }
}

/// Decoding a stored reference gives back the reference that was stored.
pub proof fn lemma_resource_ref_round_trip(dto: ResourceRefDto, value: ResourceRef)
    requires
        dto.encodes(value),
    ensures
        dto.spec_decode() == value,
{
}

} // verus!
