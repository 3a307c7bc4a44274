//! The stored form of a vibe document's resources.

use vstd::prelude::*;

use crate::codec::resource::ResourceRefDto;
use crate::domain::catalog::ResourceRef;
use crate::domain::vibe::VibeDocumentResources;

verus! {

/// Stored form of a [`VibeDocumentResources`].
#[derive(Clone, Debug)]
pub struct VibeDocumentResourcesDto {
    pub document: ResourceRefDto,
    pub source_image: Option<ResourceRefDto>,
    pub preview: Option<ResourceRefDto>,
    pub encodings: Vec<ResourceRefDto>,
}

/// An optional stored reference stores exactly `value`.
pub open spec fn encodes_optional(dto: Option<ResourceRefDto>, value: Option<ResourceRef>) -> bool {
    match value {
        Some(reference) => dto matches Some(stored) && stored.encodes(reference),
        None => dto is None,
    }
}

/// The reference an optional stored reference holds.
pub open spec fn decode_optional(dto: Option<ResourceRefDto>) -> Option<ResourceRef> {
    match dto {
        Some(stored) => Some(stored.spec_decode()),
        None => None,
    }
}

fn optional_from_domain(value: &Option<ResourceRef>) -> (dto: Option<ResourceRefDto>)
    ensures
        encodes_optional(dto, *value),
{
    match value {
        Some(reference) => Some(ResourceRefDto::from_domain(reference)),
        None => None,
    }
}

impl VibeDocumentResourcesDto {
    /// `self` stores exactly `value`.
    pub open spec fn encodes(self, value: VibeDocumentResources) -> bool {
        &&& self.document.encodes(value.document)
        &&& encodes_optional(self.source_image, value.source_image)
        &&& encodes_optional(self.preview, value.preview)
        &&& self.encodings@.len() == value.encodings@.len()
        &&& forall|i: int| 0 <= i < self.encodings@.len() ==> #[trigger] self.encodings@[i].encodes(value.encodings@[i])
    }

    /// `value` is what `self` holds.
    pub open spec fn decodes_to(self, value: VibeDocumentResources) -> bool {
        &&& value.document == self.document.spec_decode()
        &&& value.source_image == decode_optional(self.source_image)
        &&& value.preview == decode_optional(self.preview)
        &&& value.encodings@ == self.encodings@.map_values(|stored: ResourceRefDto| stored.spec_decode())
    }

    /// The stored form of `value`.
    pub fn from_domain(value: &VibeDocumentResources) -> (dto: Self)
        ensures
            dto.encodes(*value),
    {
        let mut encodings: Vec<ResourceRefDto> = Vec::new();
        let mut index: usize = 0;
        while index < value.encodings.len()
            invariant
                index <= value.encodings@.len(),
                encodings@.len() == index,
                forall|i: int| 0 <= i < index ==> #[trigger] encodings@[i].encodes(value.encodings@[i]),
            decreases value.encodings.len() - index,
        {
            encodings.push(ResourceRefDto::from_domain(&value.encodings[index]));
            index = index + 1;
        }
        VibeDocumentResourcesDto {
            document: ResourceRefDto::from_domain(&value.document),
            source_image: optional_from_domain(&value.source_image),
            preview: optional_from_domain(&value.preview),
            encodings,
        }
    }

    /// What `self` holds; every stored value reads back.
    pub fn into_domain(self) -> (value: VibeDocumentResources)
        ensures
            self.decodes_to(value),
    {
        let ghost stored = self.encodings@;
        let mut remaining = self.encodings;
        let mut encodings: Vec<ResourceRef> = Vec::new();
        while remaining.len() > 0
            invariant
                encodings@.len() + remaining@.len() == stored.len(),
                remaining@ == stored.skip(encodings@.len() as int),
                encodings@ == stored.take(encodings@.len() as int).map_values(|dto: ResourceRefDto| dto.spec_decode()),
            decreases remaining.len(),
        {
            let ghost done = encodings@.len() as int;
            let next = remaining.remove(0);
            assert(next == stored[done]);
            encodings.push(next.into_domain());
            assert(stored.take(done + 1) =~= stored.take(done).push(stored[done]));
            assert(encodings@ =~= stored.take(encodings@.len() as int).map_values(|dto: ResourceRefDto| dto.spec_decode()));
            assert(remaining@ =~= stored.skip(encodings@.len() as int));
        }
        assert(stored.take(stored.len() as int) =~= stored);
        VibeDocumentResources {
            document: self.document.into_domain(),
            source_image: match self.source_image {
                Some(dto) => Some(dto.into_domain()),
                None => None,
            },
            preview: match self.preview {
                Some(dto) => Some(dto.into_domain()),
                None => None,
            },
            encodings,
        }
    }
}

/// Reading stored vibe resources gives back the resources that were stored.
pub proof fn lemma_vibe_document_resources_round_trip(dto: VibeDocumentResourcesDto, value: VibeDocumentResources)
    requires
        dto.encodes(value),
    ensures
        dto.decodes_to(value),
{
    assert forall|i: int| 0 <= i < dto.encodings@.len() implies
        #[trigger] dto.encodings@[i].spec_decode() == value.encodings@[i] by {
        crate::codec::resource::lemma_resource_ref_round_trip(dto.encodings@[i], value.encodings@[i]);
    }
    assert(value.encodings@ =~= dto.encodings@.map_values(|stored: ResourceRefDto| stored.spec_decode()));
}

} // verus!
