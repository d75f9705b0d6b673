//! The fixed set of files that make up one segment.
use vstd::prelude::*;

verus! {

/// One kind of file written for a segment.
#[allow(non_camel_case_types)]
#[derive(Clone, Copy, Debug, PartialEq, Eq, Structural, Hash)]
pub enum SegmentComponent {
    POSITIONS,
    POSTINGS,
    TERMS,
    STORE,
    FASTFIELDS,
    FIELDNORMS,
    DELETE,
}

/// Number of components in a segment.
pub const NUM_COMPONENTS: usize = 7;

/// Every component, in a fixed order.
pub open spec fn all_components() -> Seq<SegmentComponent> {
    seq![
        SegmentComponent::POSITIONS,
        SegmentComponent::POSTINGS,
        SegmentComponent::TERMS,
        SegmentComponent::STORE,
        SegmentComponent::FASTFIELDS,
        SegmentComponent::FIELDNORMS,
        SegmentComponent::DELETE,
    ]
}

impl SegmentComponent {
    /// Every component, each once, in a fixed order.
    pub fn all() -> (r: Vec<SegmentComponent>)
        ensures
            r@ == all_components(),
    {
        let r = vec![
            SegmentComponent::POSITIONS,
            SegmentComponent::POSTINGS,
            SegmentComponent::TERMS,
            SegmentComponent::STORE,
            SegmentComponent::FASTFIELDS,
            SegmentComponent::FIELDNORMS,
            SegmentComponent::DELETE,
        ];
        assert(r@ =~= all_components());
        r
    }
}

/// The list of components holds each kind of file exactly once.
pub proof fn lemma_all_components_complete(c: SegmentComponent)
    ensures
        all_components().len() == NUM_COMPONENTS,
        all_components().contains(c),
        all_components().no_duplicates(),
{
    let s = all_components();
    match c {
        SegmentComponent::POSITIONS => assert(s[0] == c),
        SegmentComponent::POSTINGS => assert(s[1] == c),
        SegmentComponent::TERMS => assert(s[2] == c),
        SegmentComponent::STORE => assert(s[3] == c),
        SegmentComponent::FASTFIELDS => assert(s[4] == c),
        SegmentComponent::FIELDNORMS => assert(s[5] == c),
        SegmentComponent::DELETE => assert(s[6] == c),
    }
}

} // verus!
