//! The provider side of a lookup: the shape of a geocoding response, the
//! error taxonomy, component extraction, and the logic of one lookup given
//! the provider's reply.

use vstd::prelude::*;
use crate::address::{Address, AddressView, valid_query};

verus! {

/// The component type tags this pipeline recognizes in a provider response.
/// Every other tag is carried as `Other` and ignored.
#[derive(Clone, Copy, PartialEq, Eq, Structural, Debug)]
pub enum PlaceKind {
    StreetNumber,
    Route,
    Locality,
    AdministrativeAreaLevel1,
    AdministrativeAreaLevel2,
    Country,
    PostalCode,
    Other,
}

/// Model of one typed address component of a provider response.
pub struct ComponentView {
    pub long_name: Seq<char>,
    pub types: Seq<PlaceKind>,
}

/// One typed address component of a provider response: a value and the type
/// tags it carries.
pub struct AddressComponent {
    pub long_name: String,
    pub types: Vec<PlaceKind>,
}

impl DeepView for AddressComponent {
    type V = ComponentView;

    open spec fn deep_view(&self) -> ComponentView {
        ComponentView { long_name: self.long_name@, types: self.types@ }
    }
}

/// Model of one candidate match of a provider response.
pub struct GeocodingResultView {
    pub address_components: Seq<ComponentView>,
    pub lat: Seq<char>,
    pub lng: Seq<char>,
}

/// One candidate match of a provider response: its typed components and the
/// decimal coordinate text of its geometry.
pub struct GeocodingResult {
    pub address_components: Vec<AddressComponent>,
    pub lat: String,
    pub lng: String,
}

impl DeepView for GeocodingResult {
    type V = GeocodingResultView;

    open spec fn deep_view(&self) -> GeocodingResultView {
        GeocodingResultView {
            address_components: self.address_components.deep_view(),
            lat: self.lat@,
            lng: self.lng@,
        }
    }
}

/// Model of what the provider answered for one query.
pub enum ReplyView {
    Response(Seq<GeocodingResultView>),
    Failure(Seq<char>),
}

/// What the provider answered for one query: a list of candidate matches
/// (possibly empty), or a network, auth or quota failure with its message.
pub enum ProviderReply {
    Response(Vec<GeocodingResult>),
    Failure(String),
}

impl DeepView for ProviderReply {
    type V = ReplyView;

    open spec fn deep_view(&self) -> ReplyView {
        match self {
            ProviderReply::Response(results) => ReplyView::Response(results.deep_view()),
            ProviderReply::Failure(message) => ReplyView::Failure(message@),
        }
    }
}

/// Model of the error taxonomy.
pub enum GeocodingErrorView {
    ConfigurationError,
    InvalidQuery,
    ProviderError(Seq<char>),
    NoResult,
}

/// Why a run, or one record of it, failed.
///
/// `ConfigurationError` is fatal before any record is processed (missing
/// credential). The other three are per-record: `InvalidQuery` when the
/// record's query fields are insufficient, `ProviderError` when the provider
/// call itself failed (message surfaced verbatim), `NoResult` when the
/// provider answered with zero candidates.
#[derive(Debug, PartialEq, Eq)]
pub enum GeocodingError {
    ConfigurationError,
    InvalidQuery,
    ProviderError(String),
    NoResult,
}

impl DeepView for GeocodingError {
    type V = GeocodingErrorView;

    open spec fn deep_view(&self) -> GeocodingErrorView {
        match self {
            GeocodingError::ConfigurationError => GeocodingErrorView::ConfigurationError,
            GeocodingError::InvalidQuery => GeocodingErrorView::InvalidQuery,
            GeocodingError::ProviderError(m) => GeocodingErrorView::ProviderError(m@),
            GeocodingError::NoResult => GeocodingErrorView::NoResult,
        }
    }
}

impl Clone for GeocodingError {
    /// A copy of the error equal to the original.
    fn clone(&self) -> (r: Self)
        ensures
            r == *self,
    {
        match self {
            GeocodingError::ConfigurationError => GeocodingError::ConfigurationError,
            GeocodingError::InvalidQuery => GeocodingError::InvalidQuery,
            GeocodingError::ProviderError(m) => GeocodingError::ProviderError(m.clone()),
            GeocodingError::NoResult => GeocodingError::NoResult,
        }
    }
}

/// The value extracted for one component type: the last component carrying
/// that tag wins; absent when no component carries it.
pub open spec fn extract_kind(cs: Seq<ComponentView>, k: PlaceKind) -> Option<Seq<char>>
    decreases cs.len(),
{
    if cs.len() == 0 {
        None
    } else if cs.last().types.contains(k) {
        Some(cs.last().long_name)
    } else {
        extract_kind(cs.drop_last(), k)
    }
}

/// How extraction grows by one component, scanning left to right.
pub proof fn lemma_extract_step(cs: Seq<ComponentView>, k: PlaceKind, i: int)
    requires
        0 <= i < cs.len(),
    ensures
        extract_kind(cs.take(i + 1), k) == if cs[i].types.contains(k) {
            Some(cs[i].long_name)
        } else {
            extract_kind(cs.take(i), k)
        },
{
    assert(cs.take(i + 1).drop_last() =~= cs.take(i));
    assert(cs.take(i + 1).last() == cs[i]);
}

/// The normalized full address derived from the extracted components:
/// `"{street_number} {route}"` when both are present, the route alone when
/// only it is present, absent otherwise.
pub open spec fn full_address_of(
    street_number: Option<Seq<char>>,
    route: Option<Seq<char>>,
) -> Option<Seq<char>> {
    match (street_number, route) {
        (Some(number), Some(street)) => Some(number + " "@ + street),
        (None, Some(street)) => Some(street),
        _ => None,
    }
}

/// The enriched record parsed from one candidate match: every recognized
/// component type extracted last-wins, the derived full address, the match's
/// coordinates, and the query's site name carried through.
pub open spec fn parsed_view(r: GeocodingResultView, site_name: Option<Seq<char>>) -> AddressView {
    let street_number = extract_kind(r.address_components, PlaceKind::StreetNumber);
    let route = extract_kind(r.address_components, PlaceKind::Route);
    AddressView {
        name: site_name,
        full_address: full_address_of(street_number, route),
        locality: extract_kind(r.address_components, PlaceKind::Locality),
        postal_code: extract_kind(r.address_components, PlaceKind::PostalCode),
        administrative_area_level2: extract_kind(
            r.address_components,
            PlaceKind::AdministrativeAreaLevel2,
        ),
        administrative_area_level1: extract_kind(
            r.address_components,
            PlaceKind::AdministrativeAreaLevel1,
        ),
        lat: Some(r.lat),
        lng: Some(r.lng),
        street_number,
        route,
        country: extract_kind(r.address_components, PlaceKind::Country),
    }
}

/// The outcome one lookup owes for a query, given the provider's reply: an
/// invalid query is rejected before the provider is consulted; a provider
/// failure is surfaced verbatim; an empty candidate list yields no result;
/// otherwise the first candidate is parsed.
pub open spec fn outcome_view(q: AddressView, rep: ReplyView) -> Result<
    AddressView,
    GeocodingErrorView,
> {
    if !valid_query(q) {
        Err(GeocodingErrorView::InvalidQuery)
    } else {
        match rep {
            ReplyView::Failure(message) => Err(GeocodingErrorView::ProviderError(message)),
            ReplyView::Response(results) => if results.len() == 0 {
                Err(GeocodingErrorView::NoResult)
            } else {
                Ok(parsed_view(results[0], q.name))
            },
        }
    }
}

/// Whether a component carries the given type tag.
pub(crate) fn has_kind(types: &Vec<PlaceKind>, k: PlaceKind) -> (r: bool)
    ensures
        r == types@.contains(k),
{
    let mut j: usize = 0;
    while j < types.len()
        invariant
            j <= types@.len(),
            forall|t: int| 0 <= t < j ==> types@[t] != k,
        decreases types@.len() - j,
    {
        if types[j] == k {
            assert(types@.contains(k)) by {
                assert(types@[j as int] == k);
            }
            return true;
        }
        j += 1;
    }
    false
}

/// Whether the record may be sent to the provider: its name, address,
/// locality and postal code are all present and non-empty.
pub fn validate_query(a: &Address) -> (r: bool)
    ensures
        r == valid_query(a@),
{
    match (&a.name, &a.full_address, &a.locality, &a.postal_code) {
        (Some(n), Some(f), Some(l), Some(p)) => {
            !n.as_str().is_empty() && !f.as_str().is_empty() && !l.as_str().is_empty()
                && !p.as_str().is_empty()
        },
        _ => false,
    }
}

/// A credential must be present before any record is processed; an empty one
/// is a fatal configuration error.
pub fn check_api_key(key: &str) -> (r: Result<(), GeocodingError>)
    ensures
        r is Ok <==> key@.len() > 0,
        r matches Err(e) ==> e == GeocodingError::ConfigurationError,
{
    if key.is_empty() {
        Err(GeocodingError::ConfigurationError)
    } else {
        Ok(())
    }
}

/// One lookup, decided from the query and the provider's reply alone. The
/// network call itself happens outside; this function is the whole of what
/// the lookup returns for every possible reply.
pub fn lookup_with_reply(query: &Address, reply: &ProviderReply) -> (r: Result<
    Address,
    GeocodingError,
>)
    ensures
        ({
            let o = outcome_view(query@, reply.deep_view());
            match r {
                Ok(a) => o matches Ok(av) && a@ == av,
                Err(e) => o matches Err(ev) && e.deep_view() == ev,
            }
        }),
{
    if !validate_query(query) {
        return Err(GeocodingError::InvalidQuery);
    }
    match reply {
        ProviderReply::Failure(message) => Err(GeocodingError::ProviderError(message.clone())),
        ProviderReply::Response(results) => {
            if results.len() == 0 {
                Err(GeocodingError::NoResult)
            } else {
                Ok(Address::parse_geocoding_result(&results[0], query.get_site_name()))
            }
        },
    }
}

} // verus!
