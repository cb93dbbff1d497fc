use vstd::prelude::*;

verus! {

/// Everything that can terminate one inbound or outbound conversion. Each
/// verification failure is terminal for the single object being processed:
/// nothing is persisted after one of these.
#[derive(Clone, Copy, PartialEq, Eq, Structural, Debug)]
pub enum ConvertError {
    /// The request budget was already spent when a remote fetch was needed.
    FetchExhausted,
    /// Neither a local nor a remote lookup produced the entity.
    NotFound,
    /// A remote lookup produced a payload of the wrong kind.
    SchemaMismatch,
    /// The audience list carries no public marker.
    NotPublic,
    /// An address pair that must share a domain authority does not.
    DomainMismatch,
    /// No audience entry resolved to a community.
    NoCommunityInAudience,
    /// The attributed actor is banned from the resolved community.
    NotCommunityMember,
    /// The title matches the configured slur pattern.
    ProhibitedContent,
}

impl ConvertError {
    /// A short stable label for callers that report errors.
    pub fn label(&self) -> (r: &'static str)
        ensures
            r@ == self.spec_label(),
    {
        match self {
            ConvertError::FetchExhausted => "fetch budget exhausted",
            ConvertError::NotFound => "not found",
            ConvertError::SchemaMismatch => "schema mismatch",
            ConvertError::NotPublic => "not public",
            ConvertError::DomainMismatch => "domain mismatch",
            ConvertError::NoCommunityInAudience => "no community found in audience",
            ConvertError::NotCommunityMember => "not a community member",
            ConvertError::ProhibitedContent => "prohibited content",
        }
    }

    pub open spec fn spec_label(&self) -> Seq<char> {
        match self {
            ConvertError::FetchExhausted => "fetch budget exhausted"@,
            ConvertError::NotFound => "not found"@,
            ConvertError::SchemaMismatch => "schema mismatch"@,
            ConvertError::NotPublic => "not public"@,
            ConvertError::DomainMismatch => "domain mismatch"@,
            ConvertError::NoCommunityInAudience => "no community found in audience"@,
            ConvertError::NotCommunityMember => "not a community member"@,
            ConvertError::ProhibitedContent => "prohibited content"@,
        }
    }
}

} // verus!
