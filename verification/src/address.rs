//! The address record: the data entity that enters the pipeline as a query
//! and leaves it enriched with geocoding results.

use vstd::prelude::*;
use vstd::string::StringExecFns;
use crate::geocoding::{
    GeocodingResult, PlaceKind, extract_kind, has_kind, lemma_extract_step, parsed_view,
};

verus! {

/// Mathematical model of an address record: each field as an optional
/// sequence of characters.
pub struct AddressView {
    pub name: Option<Seq<char>>,
    pub full_address: Option<Seq<char>>,
    pub locality: Option<Seq<char>>,
    pub postal_code: Option<Seq<char>>,
    pub administrative_area_level2: Option<Seq<char>>,
    pub administrative_area_level1: Option<Seq<char>>,
    pub lat: Option<Seq<char>>,
    pub lng: Option<Seq<char>>,
    pub street_number: Option<Seq<char>>,
    pub route: Option<Seq<char>>,
    pub country: Option<Seq<char>>,
}

/// One physical location, before or after enrichment.
///
/// The descriptive fields (`name` through `administrative_area_level1`) come
/// from the input source. `lat` and `lng` hold the decimal coordinate text;
/// they are always present on a record produced by a successful lookup.
/// `street_number`, `route` and `country` are normalized components that only
/// a successful lookup populates.
#[derive(Debug, PartialEq)]
pub struct Address {
    pub name: Option<String>,
    pub full_address: Option<String>,
    pub locality: Option<String>,
    pub postal_code: Option<String>,
    pub administrative_area_level2: Option<String>,
    pub administrative_area_level1: Option<String>,
    pub lat: Option<String>,
    pub lng: Option<String>,
    pub street_number: Option<String>,
    pub route: Option<String>,
    pub country: Option<String>,
}

impl View for Address {
    type V = AddressView;

    open spec fn view(&self) -> AddressView {
        AddressView {
            name: self.name.deep_view(),
            full_address: self.full_address.deep_view(),
            locality: self.locality.deep_view(),
            postal_code: self.postal_code.deep_view(),
            administrative_area_level2: self.administrative_area_level2.deep_view(),
            administrative_area_level1: self.administrative_area_level1.deep_view(),
            lat: self.lat.deep_view(),
            lng: self.lng.deep_view(),
            street_number: self.street_number.deep_view(),
            route: self.route.deep_view(),
            country: self.country.deep_view(),
        }
    }
}

impl DeepView for Address {
    type V = AddressView;

    open spec fn deep_view(&self) -> AddressView {
        self.view()
    }
}

/// The ordered collection of address records of one run, as supplied by the
/// input source.
#[derive(Debug, PartialEq)]
pub struct Addresses {
    pub addresses: Vec<Address>,
}

impl Addresses {
    /// Wraps the records that the input collaborator loaded.
    pub fn new(addresses: Vec<Address>) -> (r: Addresses)
        ensures
            r.addresses == addresses,
    {
        Addresses { addresses }
    }
}

/// The four fields that form a geocoding query are all present.
pub open spec fn query_fields_present(a: AddressView) -> bool {
    &&& a.name is Some
    &&& a.full_address is Some
    &&& a.locality is Some
    &&& a.postal_code is Some
}

/// A record may be sent to the provider only when its name, address,
/// locality and postal code are all present and non-empty.
pub open spec fn valid_query(a: AddressView) -> bool {
    &&& a.name matches Some(n) && n.len() > 0
    &&& a.full_address matches Some(f) && f.len() > 0
    &&& a.locality matches Some(l) && l.len() > 0
    &&& a.postal_code matches Some(p) && p.len() > 0
}

/// The free-text search string sent to the provider: name, address,
/// locality and postal code, comma-separated.
pub open spec fn query_string_view(a: AddressView) -> Seq<char>
    recommends
        query_fields_present(a),
{
    a.name.unwrap() + ", "@ + a.full_address.unwrap() + ", "@ + a.locality.unwrap() + ", "@
        + a.postal_code.unwrap()
}

/// The eight fields shown for a fully described record are all present.
pub open spec fn formatted_fields_present(a: AddressView) -> bool {
    &&& a.name is Some
    &&& a.full_address is Some
    &&& a.locality is Some
    &&& a.postal_code is Some
    &&& a.administrative_area_level1 is Some
    &&& a.administrative_area_level2 is Some
    &&& a.lat is Some
    &&& a.lng is Some
}

/// The human-readable rendering of a fully described record.
pub open spec fn formatted_view(a: AddressView) -> Seq<char>
    recommends
        formatted_fields_present(a),
{
    a.name.unwrap() + ", "@ + a.full_address.unwrap() + ", "@ + a.locality.unwrap() + ", "@
        + a.postal_code.unwrap() + ", "@ + a.administrative_area_level1.unwrap() + ", "@
        + a.administrative_area_level2.unwrap() + ", "@ + a.lat.unwrap() + ", "@ + a.lng.unwrap()
}

/// An enriched record always carries coordinates.
pub open spec fn enriched(a: AddressView) -> bool {
    &&& a.lat is Some
    &&& a.lng is Some
}

/// Copies an optional string, field for field.
pub fn clone_opt_string(o: &Option<String>) -> (r: Option<String>)
    ensures
        r == *o,
{
    match o {
        Some(s) => Some(s.clone()),
        None => None,
    }
}

impl Clone for Address {
    /// A copy of the record equal to the original.
    fn clone(&self) -> (r: Self)
        ensures
            r == *self,
    {
        Address {
            name: clone_opt_string(&self.name),
            full_address: clone_opt_string(&self.full_address),
            locality: clone_opt_string(&self.locality),
            postal_code: clone_opt_string(&self.postal_code),
            administrative_area_level2: clone_opt_string(&self.administrative_area_level2),
            administrative_area_level1: clone_opt_string(&self.administrative_area_level1),
            lat: clone_opt_string(&self.lat),
            lng: clone_opt_string(&self.lng),
            street_number: clone_opt_string(&self.street_number),
            route: clone_opt_string(&self.route),
            country: clone_opt_string(&self.country),
        }
    }
}

impl Address {
    /// The record's stable user-facing identifier.
    pub fn get_site_name(&self) -> (r: Option<String>)
        ensures
            r.deep_view() == self@.name,
    {
        clone_opt_string(&self.name)
    }

    /// The free-text search string for the provider: `Some` exactly when
    /// name, address, locality and postal code are all present.
    pub fn get_address_with_site_name(&self) -> (r: Option<String>)
        ensures
            r is Some <==> query_fields_present(self@),
            r matches Some(s) ==> s@ == query_string_view(self@),
    {
        let name = match &self.name {
            Some(v) => v,
            None => { return None },
        };
        let addr = match &self.full_address {
            Some(v) => v,
            None => { return None },
        };
        let loc = match &self.locality {
            Some(v) => v,
            None => { return None },
        };
        let zip = match &self.postal_code {
            Some(v) => v,
            None => { return None },
        };
        let mut s = name.clone();
        s.append(", ");
        s.append(addr.as_str());
        s.append(", ");
        s.append(loc.as_str());
        s.append(", ");
        s.append(zip.as_str());
        Some(s)
    }

    /// The full human-readable rendering: `Some` exactly when every
    /// descriptive field and both coordinates are present.
    pub fn get_formatted_address(&self) -> (r: Option<String>)
        ensures
            r is Some <==> formatted_fields_present(self@),
            r matches Some(s) ==> s@ == formatted_view(self@),
    {
        let name = match &self.name {
            Some(v) => v,
            None => { return None },
        };
        let addr = match &self.full_address {
            Some(v) => v,
            None => { return None },
        };
        let loc = match &self.locality {
            Some(v) => v,
            None => { return None },
        };
        let zip = match &self.postal_code {
            Some(v) => v,
            None => { return None },
        };
        let area1 = match &self.administrative_area_level1 {
            Some(v) => v,
            None => { return None },
        };
        let area2 = match &self.administrative_area_level2 {
            Some(v) => v,
            None => { return None },
        };
        let lat = match &self.lat {
            Some(v) => v,
            None => { return None },
        };
        let lng = match &self.lng {
            Some(v) => v,
            None => { return None },
        };
        let mut s = name.clone();
        s.append(", ");
        s.append(addr.as_str());
        s.append(", ");
        s.append(loc.as_str());
        s.append(", ");
        s.append(zip.as_str());
        s.append(", ");
        s.append(area1.as_str());
        s.append(", ");
        s.append(area2.as_str());
        s.append(", ");
        s.append(lat.as_str());
        s.append(", ");
        s.append(lng.as_str());
        Some(s)
    }

    /// Turns one provider candidate into an enriched record. Every
    /// recognized component type is extracted with a last-wins policy, the
    /// normalized full address is derived from street number and route, and
    /// the candidate's coordinates are carried over.
    pub fn parse_geocoding_result(result: &GeocodingResult, site_name: Option<String>) -> (a:
        Address)
        ensures
            a@ == parsed_view(result.deep_view(), site_name.deep_view()),
    {
        let ghost cs = result.deep_view().address_components;
        let mut street_number: Option<String> = None;
        let mut route: Option<String> = None;
        let mut locality: Option<String> = None;
        let mut administrative_area_level2: Option<String> = None;
        let mut administrative_area_level1: Option<String> = None;
        let mut country: Option<String> = None;
        let mut postal_code: Option<String> = None;

        let n = result.address_components.len();
        let mut i: usize = 0;
        while i < n
            invariant
                i <= n,
                n == result.address_components.len(),
                cs == result.deep_view().address_components,
                street_number.deep_view() == extract_kind(
                    cs.take(i as int),
                    PlaceKind::StreetNumber,
                ),
                route.deep_view() == extract_kind(cs.take(i as int), PlaceKind::Route),
                locality.deep_view() == extract_kind(cs.take(i as int), PlaceKind::Locality),
                administrative_area_level2.deep_view() == extract_kind(
                    cs.take(i as int),
                    PlaceKind::AdministrativeAreaLevel2,
                ),
                administrative_area_level1.deep_view() == extract_kind(
                    cs.take(i as int),
                    PlaceKind::AdministrativeAreaLevel1,
                ),
                country.deep_view() == extract_kind(cs.take(i as int), PlaceKind::Country),
                postal_code.deep_view() == extract_kind(cs.take(i as int), PlaceKind::PostalCode),
            decreases n - i,
        {
            let component = &result.address_components[i];
            proof {
                assert(cs[i as int] == component.deep_view());
                lemma_extract_step(cs, PlaceKind::StreetNumber, i as int);
                lemma_extract_step(cs, PlaceKind::Route, i as int);
                lemma_extract_step(cs, PlaceKind::Locality, i as int);
                lemma_extract_step(cs, PlaceKind::AdministrativeAreaLevel2, i as int);
                lemma_extract_step(cs, PlaceKind::AdministrativeAreaLevel1, i as int);
                lemma_extract_step(cs, PlaceKind::Country, i as int);
                lemma_extract_step(cs, PlaceKind::PostalCode, i as int);
            }
            if has_kind(&component.types, PlaceKind::StreetNumber) {
                street_number = Some(component.long_name.clone());
            }
            if has_kind(&component.types, PlaceKind::Route) {
                route = Some(component.long_name.clone());
            }
            if has_kind(&component.types, PlaceKind::Locality) {
                locality = Some(component.long_name.clone());
            }
            if has_kind(&component.types, PlaceKind::AdministrativeAreaLevel2) {
                administrative_area_level2 = Some(component.long_name.clone());
            }
            if has_kind(&component.types, PlaceKind::AdministrativeAreaLevel1) {
                administrative_area_level1 = Some(component.long_name.clone());
            }
            if has_kind(&component.types, PlaceKind::Country) {
                country = Some(component.long_name.clone());
            }
            if has_kind(&component.types, PlaceKind::PostalCode) {
                postal_code = Some(component.long_name.clone());
            }
            i += 1;
        }
        proof {
            assert(cs.take(n as int) =~= cs);
        }

        let full_address: Option<String> = match (&street_number, &route) {
            (Some(number), Some(street)) => {
                let mut s = number.clone();
                s.append(" ");
                s.append(street.as_str());
                Some(s)
            },
            (None, Some(street)) => Some(street.clone()),
            _ => None,
        };

        Address {
            name: site_name,
            full_address,
            locality,
            postal_code,
            administrative_area_level2,
            administrative_area_level1,
            lat: Some(result.lat.clone()),
            lng: Some(result.lng.clone()),
            street_number,
            route,
            country,
        }
    }
}

} // verus!
