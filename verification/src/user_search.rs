//! Social-graph search feed types and their UI projections.
//!
//! A search subscription delivers progress updates only: there is no
//! snapshot phase. Each update carries the newly found results and the
//! running total, which stays accurate even when a slow consumer misses
//! intermediate updates.

use crate::utils::hex_of_bytes;
use vstd::prelude::*;

verus! {

/// How well a profile matched the query, as the collaborator grades it.
#[derive(Debug, Clone, Copy, PartialEq, Eq, Structural)]
pub enum SourceMatchQuality {
    /// The field equals the query.
    Exact,
    /// The field starts with the query.
    Prefix,
    /// The field contains the query.
    Contains,
}

/// How well a profile matched the query, as the UI sees it.
#[derive(Debug, Clone, Copy, PartialEq, Eq, Structural)]
pub enum MatchQuality {
    /// The field equals the query.
    Exact,
    /// The field starts with the query.
    Prefix,
    /// The field contains the query.
    Contains,
}

/// The UI match quality corresponding to a source one.
pub open spec fn converted_match_quality(q: SourceMatchQuality) -> MatchQuality {
    match q {
        SourceMatchQuality::Exact => MatchQuality::Exact,
        SourceMatchQuality::Prefix => MatchQuality::Prefix,
        SourceMatchQuality::Contains => MatchQuality::Contains,
    }
}

impl From<SourceMatchQuality> for MatchQuality {
    fn from(q: SourceMatchQuality) -> (r: Self) {
        match q {
            SourceMatchQuality::Exact => MatchQuality::Exact,
            SourceMatchQuality::Prefix => MatchQuality::Prefix,
            SourceMatchQuality::Contains => MatchQuality::Contains,
        }
    }
}

impl vstd::std_specs::convert::FromSpecImpl<SourceMatchQuality> for MatchQuality {
    open spec fn obeys_from_spec() -> bool {
        true
    }

    open spec fn from_spec(q: SourceMatchQuality) -> Self {
        converted_match_quality(q)
    }
}

/// Which profile field matched, as the collaborator tags it.
#[derive(Debug, Clone, Copy, PartialEq, Eq, Structural)]
pub enum SourceMatchedField {
    /// The profile's name.
    Name,
    /// The profile's NIP-05 identifier.
    Nip05,
    /// The profile's display name.
    DisplayName,
    /// The profile's about text.
    About,
}

/// Which profile field matched, as the UI sees it.
#[derive(Debug, Clone, Copy, PartialEq, Eq, Structural)]
pub enum MatchedField {
    /// The profile's name.
    Name,
    /// The profile's NIP-05 identifier.
    Nip05,
    /// The profile's display name.
    DisplayName,
    /// The profile's about text.
    About,
}

/// The UI matched field corresponding to a source one.
pub open spec fn converted_matched_field(f: SourceMatchedField) -> MatchedField {
    match f {
        SourceMatchedField::Name => MatchedField::Name,
        SourceMatchedField::Nip05 => MatchedField::Nip05,
        SourceMatchedField::DisplayName => MatchedField::DisplayName,
        SourceMatchedField::About => MatchedField::About,
    }
}

impl From<SourceMatchedField> for MatchedField {
    fn from(f: SourceMatchedField) -> (r: Self) {
        match f {
            SourceMatchedField::Name => MatchedField::Name,
            SourceMatchedField::Nip05 => MatchedField::Nip05,
            SourceMatchedField::DisplayName => MatchedField::DisplayName,
            SourceMatchedField::About => MatchedField::About,
        }
    }
}

impl vstd::std_specs::convert::FromSpecImpl<SourceMatchedField> for MatchedField {
    open spec fn obeys_from_spec() -> bool {
        true
    }

    open spec fn from_spec(f: SourceMatchedField) -> Self {
        converted_matched_field(f)
    }
}

/// A search progress event, as the collaborator emits it.
#[derive(Debug, Clone, PartialEq, Eq)]
pub enum SourceSearchUpdateTrigger {
    /// Search of a follow radius began.
    RadiusStarted {
        /// The radius being searched.
        radius: u8,
    },
    /// New results were found.
    ResultsFound,
    /// Search of a radius finished.
    RadiusCompleted {
        /// The finished radius.
        radius: u8,
        /// How many profiles were scanned in it.
        total_pubkeys_searched: usize,
    },
    /// A radius had more candidates than the configured cap.
    RadiusCapped {
        /// The capped radius.
        radius: u8,
        /// The configured cap.
        cap: usize,
        /// How many candidates the radius actually held.
        actual: usize,
    },
    /// Search of a radius timed out.
    RadiusTimeout {
        /// The radius that timed out.
        radius: u8,
    },
    /// The whole search finished.
    SearchCompleted {
        /// The last radius searched.
        final_radius: u8,
        /// The total number of results.
        total_results: usize,
    },
    /// The search failed.
    Error {
        /// What went wrong.
        message: String,
    },
}

/// A search progress event, as the UI sees it.
#[derive(Debug, Clone, PartialEq, Eq)]
pub enum SearchUpdateTrigger {
    /// Search of a follow radius began.
    RadiusStarted {
        /// The radius being searched.
        radius: u8,
    },
    /// New results were found.
    ResultsFound,
    /// Search of a radius finished.
    RadiusCompleted {
        /// The finished radius.
        radius: u8,
        /// How many profiles were scanned in it.
        total_pubkeys_searched: u64,
    },
    /// A radius had more candidates than the configured cap.
    RadiusCapped {
        /// The capped radius.
        radius: u8,
        /// The configured cap.
        cap: u64,
        /// How many candidates the radius actually held.
        actual: u64,
    },
    /// Search of a radius timed out.
    RadiusTimeout {
        /// The radius that timed out.
        radius: u8,
    },
    /// The whole search finished.
    SearchCompleted {
        /// The last radius searched.
        final_radius: u8,
        /// The total number of results.
        total_results: u64,
    },
    /// The search failed.
    Error {
        /// What went wrong.
        message: String,
    },
}

/// The UI trigger corresponding to a source trigger.
pub open spec fn converted_search_trigger(t: SourceSearchUpdateTrigger) -> SearchUpdateTrigger {
    match t {
        SourceSearchUpdateTrigger::RadiusStarted { radius } => SearchUpdateTrigger::RadiusStarted {
            radius,
        },
        SourceSearchUpdateTrigger::ResultsFound => SearchUpdateTrigger::ResultsFound,
        SourceSearchUpdateTrigger::RadiusCompleted { radius, total_pubkeys_searched } => SearchUpdateTrigger::RadiusCompleted {
            radius,
            total_pubkeys_searched: total_pubkeys_searched as u64,
        },
        SourceSearchUpdateTrigger::RadiusCapped { radius, cap, actual } => SearchUpdateTrigger::RadiusCapped {
            radius,
            cap: cap as u64,
            actual: actual as u64,
        },
        SourceSearchUpdateTrigger::RadiusTimeout { radius } => SearchUpdateTrigger::RadiusTimeout {
            radius,
        },
        SourceSearchUpdateTrigger::SearchCompleted { final_radius, total_results } => SearchUpdateTrigger::SearchCompleted {
            final_radius,
            total_results: total_results as u64,
        },
        SourceSearchUpdateTrigger::Error { message } => SearchUpdateTrigger::Error { message },
    }
}

impl From<SourceSearchUpdateTrigger> for SearchUpdateTrigger {
    fn from(t: SourceSearchUpdateTrigger) -> (r: Self) {
        match t {
            SourceSearchUpdateTrigger::RadiusStarted { radius } => SearchUpdateTrigger::RadiusStarted {
                radius,
            },
            SourceSearchUpdateTrigger::ResultsFound => SearchUpdateTrigger::ResultsFound,
            SourceSearchUpdateTrigger::RadiusCompleted {
                radius,
                total_pubkeys_searched,
            } => SearchUpdateTrigger::RadiusCompleted {
                radius,
                total_pubkeys_searched: total_pubkeys_searched as u64,
            },
            SourceSearchUpdateTrigger::RadiusCapped { radius, cap, actual } => SearchUpdateTrigger::RadiusCapped {
                radius,
                cap: cap as u64,
                actual: actual as u64,
            },
            SourceSearchUpdateTrigger::RadiusTimeout { radius } => SearchUpdateTrigger::RadiusTimeout {
                radius,
            },
            SourceSearchUpdateTrigger::SearchCompleted {
                final_radius,
                total_results,
            } => SearchUpdateTrigger::SearchCompleted {
                final_radius,
                total_results: total_results as u64,
            },
            SourceSearchUpdateTrigger::Error { message } => SearchUpdateTrigger::Error { message },
        }
    }
}

impl vstd::std_specs::convert::FromSpecImpl<SourceSearchUpdateTrigger> for SearchUpdateTrigger {
    open spec fn obeys_from_spec() -> bool {
        true
    }

    open spec fn from_spec(t: SourceSearchUpdateTrigger) -> Self {
        converted_search_trigger(t)
    }
}

/// A found profile's metadata: the plain fields the search reads.
#[derive(Debug, Clone)]
pub struct UserMetadata {
    /// The profile's name.
    pub name: Option<String>,
    /// The profile's display name.
    pub display_name: Option<String>,
    /// The profile's about text.
    pub about: Option<String>,
    /// The profile's picture URL.
    pub picture: Option<String>,
    /// The profile's NIP-05 identifier.
    pub nip05: Option<String>,
}

/// Two metadata values carrying the same fields.
pub open spec fn metadata_matches(a: UserMetadata, b: UserMetadata) -> bool {
    a.name == b.name && a.display_name == b.display_name && a.about == b.about && a.picture
        == b.picture && a.nip05 == b.nip05
}

/// Clones a metadata value.
pub fn clone_metadata(m: &UserMetadata) -> (r: UserMetadata)
    ensures
        metadata_matches(*m, r),
{
    UserMetadata {
        name: crate::utils::clone_opt_string(&m.name),
        display_name: crate::utils::clone_opt_string(&m.display_name),
        about: crate::utils::clone_opt_string(&m.about),
        picture: crate::utils::clone_opt_string(&m.picture),
        nip05: crate::utils::clone_opt_string(&m.nip05),
    }
}

/// One search result, as the collaborator holds it.
#[derive(Debug, Clone)]
pub struct SourceUserSearchResult {
    /// The found user's raw public key.
    pub pubkey: Vec<u8>,
    /// The found user's profile metadata.
    pub metadata: UserMetadata,
    /// The follow radius the user was found at.
    pub radius: u8,
    /// How well the best field matched.
    pub match_quality: SourceMatchQuality,
    /// The best matching field.
    pub best_field: SourceMatchedField,
    /// Every field that matched.
    pub matched_fields: Vec<SourceMatchedField>,
}

/// One search result, as the UI represents it.
#[derive(Debug, Clone)]
pub struct UserSearchResult {
    /// The found user's public key as a hex string.
    pub pubkey: String,
    /// The found user's profile metadata.
    pub metadata: UserMetadata,
    /// The follow radius the user was found at.
    pub radius: u8,
    /// How well the best field matched.
    pub match_quality: MatchQuality,
    /// The best matching field.
    pub best_field: MatchedField,
    /// Every field that matched.
    pub matched_fields: Vec<MatchedField>,
}

/// The exact correspondence between source and UI search results.
pub open spec fn search_result_converts(src: SourceUserSearchResult, dst: UserSearchResult) -> bool {
    &&& dst.pubkey@ == hex_of_bytes(src.pubkey@)
    &&& metadata_matches(src.metadata, dst.metadata)
    &&& dst.radius == src.radius
    &&& dst.match_quality == converted_match_quality(src.match_quality)
    &&& dst.best_field == converted_matched_field(src.best_field)
    &&& dst.matched_fields@ == src.matched_fields@.map_values(
        |f: SourceMatchedField| converted_matched_field(f),
    )
}

/// Converts one search result.
pub fn search_result_from_source(src: &SourceUserSearchResult) -> (r: UserSearchResult)
    ensures
        search_result_converts(*src, r),
{
    let mut matched_fields: Vec<MatchedField> = Vec::new();
    let mut i: usize = 0;
    while i < src.matched_fields.len()
        invariant
            i <= src.matched_fields@.len(),
            matched_fields@.len() == i,
            forall|j: int|
                0 <= j < i ==> #[trigger] matched_fields@[j] == converted_matched_field(
                    src.matched_fields@[j],
                ),
        decreases src.matched_fields@.len() - i,
    {
        matched_fields.push(MatchedField::from(src.matched_fields[i]));
        i = i + 1;
    }
    proof {
        assert(matched_fields@ =~= src.matched_fields@.map_values(
            |f: SourceMatchedField| converted_matched_field(f),
        ));
    }
    UserSearchResult {
        pubkey: crate::utils::bytes_to_hex_string(&src.pubkey),
        metadata: clone_metadata(&src.metadata),
        radius: src.radius,
        match_quality: MatchQuality::from(src.match_quality),
        best_field: MatchedField::from(src.best_field),
        matched_fields,
    }
}

/// One search progress update, as the collaborator emits it.
#[derive(Debug, Clone)]
pub struct SourceUserSearchUpdate {
    /// What happened.
    pub trigger: SourceSearchUpdateTrigger,
    /// The results found since the previous update.
    pub new_results: Vec<SourceUserSearchResult>,
    /// The running total of results so far.
    pub total_result_count: usize,
}

/// One search progress update, as delivered to the UI.
#[derive(Debug, Clone)]
pub struct UserSearchUpdate {
    /// What happened.
    pub trigger: SearchUpdateTrigger,
    /// The results found since the previous update.
    pub new_results: Vec<UserSearchResult>,
    /// The running total of results so far.
    pub total_result_count: u64,
}

/// The exact correspondence between source and UI search updates.
pub open spec fn search_update_converts(src: SourceUserSearchUpdate, dst: UserSearchUpdate) -> bool {
    &&& dst.trigger == converted_search_trigger(src.trigger)
    &&& dst.new_results@.len() == src.new_results@.len()
    &&& forall|i: int|
        0 <= i < src.new_results@.len() ==> search_result_converts(
            src.new_results@[i],
            #[trigger] dst.new_results@[i],
        )
    &&& dst.total_result_count == src.total_result_count as u64
}

/// Converts one search update.
pub fn search_update_from_source(src: SourceUserSearchUpdate) -> (r: UserSearchUpdate)
    ensures
        search_update_converts(src, r),
{
    let SourceUserSearchUpdate { trigger, new_results: source_results, total_result_count } = src;
    let mut new_results: Vec<UserSearchResult> = Vec::new();
    let mut i: usize = 0;
    while i < source_results.len()
        invariant
            i <= source_results@.len(),
            new_results@.len() == i,
            forall|j: int|
                0 <= j < i ==> search_result_converts(
                    source_results@[j],
                    #[trigger] new_results@[j],
                ),
        decreases source_results@.len() - i,
    {
        new_results.push(search_result_from_source(&source_results[i]));
        i = i + 1;
    }
    UserSearchUpdate {
        trigger: SearchUpdateTrigger::from(trigger),
        new_results,
        total_result_count: total_result_count as u64,
    }
}

} // verus!
