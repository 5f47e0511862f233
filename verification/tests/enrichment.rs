use geoenrich::address::Address;
use geoenrich::dispatch::{Dispatcher, StartAction};
use geoenrich::geocoding::{
    check_api_key, lookup_with_reply, AddressComponent, GeocodingError, GeocodingResult, PlaceKind,
    ProviderReply,
};
use geoenrich::pipeline::{apply_policy, run_with_replies, FailurePolicy};

fn record(name: &str, address: &str, city: &str, zip: &str) -> Address {
    Address {
        name: Some(name.to_string()),
        full_address: Some(address.to_string()),
        locality: Some(city.to_string()),
        postal_code: Some(zip.to_string()),
        administrative_area_level2: None,
        administrative_area_level1: None,
        lat: None,
        lng: None,
        street_number: None,
        route: None,
        country: None,
    }
}

fn component(value: &str, kinds: &[PlaceKind]) -> AddressComponent {
    AddressComponent {
        long_name: value.to_string(),
        types: kinds.to_vec(),
    }
}

fn paris_result() -> GeocodingResult {
    GeocodingResult {
        address_components: vec![
            component("1", &[PlaceKind::StreetNumber]),
            component("Main St", &[PlaceKind::Route]),
            component("Paris", &[PlaceKind::Locality]),
            component("France", &[PlaceKind::Country]),
            component("75001", &[PlaceKind::PostalCode]),
        ],
        lat: "48.86".to_string(),
        lng: "2.35".to_string(),
    }
}

#[test]
fn empty_input_yields_empty_output() {
    let out = run_with_replies(vec![], 10, &vec![], FailurePolicy::Strict).unwrap();
    assert!(out.is_empty());
    let mut d = Dispatcher::new(vec![], 1);
    assert!(d.is_done());
    assert!(matches!(d.try_start(), StartAction::Exhausted));
}

#[test]
fn addresses_wraps_records() {
    let a = geoenrich::address::Addresses::new(vec![record("A", "1 Main St", "Paris", "75001")]);
    assert_eq!(a.addresses.len(), 1);
    assert_eq!(a.addresses[0].name.as_deref(), Some("A"));
}

#[test]
fn one_record_enriched_strict() {
    let queries = vec![record("A", "1 Main St", "Paris", "75001")];
    let replies = vec![ProviderReply::Response(vec![paris_result()])];
    let out = run_with_replies(queries, 10, &replies, FailurePolicy::Strict).unwrap();
    assert_eq!(out.len(), 1);
    let a = &out[0];
    assert_eq!(a.name.as_deref(), Some("A"));
    assert_eq!(a.full_address.as_deref(), Some("1 Main St"));
    assert_eq!(a.lat.as_deref(), Some("48.86"));
    assert_eq!(a.lng.as_deref(), Some("2.35"));
    assert_eq!(a.street_number.as_deref(), Some("1"));
    assert_eq!(a.route.as_deref(), Some("Main St"));
    assert_eq!(a.locality.as_deref(), Some("Paris"));
    assert_eq!(a.country.as_deref(), Some("France"));
    assert_eq!(a.postal_code.as_deref(), Some("75001"));
}

#[test]
fn no_result_strict_fails() {
    let queries = vec![record("A", "1 Main St", "Paris", "75001")];
    let replies = vec![ProviderReply::Response(vec![])];
    let out = run_with_replies(queries, 10, &replies, FailurePolicy::Strict);
    assert_eq!(out, Err(GeocodingError::NoResult));
}

#[test]
fn no_result_lenient_empty_output() {
    let queries = vec![record("A", "1 Main St", "Paris", "75001")];
    let replies = vec![ProviderReply::Response(vec![])];
    let out = run_with_replies(queries, 10, &replies, FailurePolicy::Lenient).unwrap();
    assert!(out.is_empty());
}

#[test]
fn empty_query_rejected_without_call() {
    let mut d = Dispatcher::new(vec![record("", "", "", "")], 3);
    let action = d.try_start();
    assert!(matches!(action, StartAction::Rejected(0)));
    assert_eq!(d.in_flight, 0);
    assert!(d.is_done());
    let (results, errors) = d.into_outcomes();
    assert!(results.is_empty());
    assert_eq!(errors, vec![(0usize, GeocodingError::InvalidQuery)]);
}

#[test]
fn empty_query_outcome_ignores_reply() {
    // Even a reply that would enrich the record cannot reach it: the record
    // is rejected before any call would be made.
    let queries = vec![record("", "", "", "")];
    let replies = vec![ProviderReply::Response(vec![paris_result()])];
    let out = run_with_replies(queries, 10, &replies, FailurePolicy::Strict);
    assert_eq!(out, Err(GeocodingError::InvalidQuery));
}

#[test]
fn exactly_n_outcomes_mixed() {
    let queries = vec![
        record("A", "1 Main St", "Paris", "75001"),
        record("B", "2 High St", "Lyon", "69001"),
        record("C", "3 Low Rd", "Nice", "06000"),
        record("", "", "", ""),
    ];
    let replies = vec![
        ProviderReply::Response(vec![paris_result()]),
        ProviderReply::Failure("boom".to_string()),
        ProviderReply::Response(vec![]),
        ProviderReply::Response(vec![paris_result()]),
    ];
    let mut d = Dispatcher::new(queries, 2);
    loop {
        match d.try_start() {
            StartAction::Started(i, _query) => {
                let out = lookup_with_reply(d.query_at(i), &replies[i]);
                d.complete(i, out);
            }
            StartAction::Rejected(_) => {}
            StartAction::Saturated => unreachable!(),
            StartAction::Exhausted => break,
        }
    }
    let (results, errors) = d.into_outcomes();
    assert_eq!(results.len() + errors.len(), 4);
    assert_eq!(results.len(), 1);
    assert_eq!(
        errors,
        vec![
            (1usize, GeocodingError::ProviderError("boom".to_string())),
            (2usize, GeocodingError::NoResult),
            (3usize, GeocodingError::InvalidQuery),
        ]
    );
}

#[test]
fn cap_never_exceeded() {
    let queries = vec![
        record("A", "1 Main St", "Paris", "75001"),
        record("B", "2 High St", "Lyon", "69001"),
        record("C", "3 Low Rd", "Nice", "06000"),
    ];
    let mut d = Dispatcher::new(queries, 2);
    assert!(matches!(d.try_start(), StartAction::Started(0, _)));
    assert!(matches!(d.try_start(), StartAction::Started(1, _)));
    assert_eq!(d.in_flight, 2);
    assert!(matches!(d.try_start(), StartAction::Saturated));
    assert_eq!(d.in_flight, 2);
    d.complete(0, Err(GeocodingError::NoResult));
    assert_eq!(d.in_flight, 1);
    assert!(matches!(d.try_start(), StartAction::Started(2, _)));
    assert_eq!(d.in_flight, 2);
    assert!(matches!(d.try_start(), StartAction::Exhausted));
    d.complete(1, Err(GeocodingError::NoResult));
    d.complete(2, Err(GeocodingError::NoResult));
    assert!(d.is_done());
}

#[test]
fn limit_one_serializes() {
    let queries = vec![
        record("A", "1 Main St", "Paris", "75001"),
        record("B", "2 High St", "Lyon", "69001"),
        record("C", "3 Low Rd", "Nice", "06000"),
        record("D", "4 Old Ln", "Lille", "59000"),
        record("E", "5 New Av", "Brest", "29200"),
    ];
    let replies = vec![
        ProviderReply::Response(vec![paris_result()]),
        ProviderReply::Response(vec![paris_result()]),
        ProviderReply::Response(vec![paris_result()]),
        ProviderReply::Response(vec![paris_result()]),
        ProviderReply::Response(vec![paris_result()]),
    ];
    let mut d = Dispatcher::new(queries, 1);
    let mut started: usize = 0;
    loop {
        match d.try_start() {
            StartAction::Started(i, _query) => {
                started += 1;
                assert_eq!(d.in_flight, 1);
                // With a limit of one, a second lookup can never start while
                // this one is outstanding: the calls run one after another.
                assert!(matches!(d.try_start(), StartAction::Saturated | StartAction::Exhausted));
                let out = lookup_with_reply(d.query_at(i), &replies[i]);
                d.complete(i, out);
                assert_eq!(d.in_flight, 0);
            }
            StartAction::Rejected(_) => {}
            StartAction::Saturated => unreachable!(),
            StartAction::Exhausted => break,
        }
    }
    assert_eq!(started, 5);
    let (results, errors) = d.into_outcomes();
    assert_eq!(results.len(), 5);
    assert!(errors.is_empty());
}

#[test]
fn rerun_yields_identical_output() {
    let make_queries = || {
        vec![
            record("A", "1 Main St", "Paris", "75001"),
            record("B", "2 High St", "Lyon", "69001"),
        ]
    };
    let replies = vec![
        ProviderReply::Response(vec![paris_result()]),
        ProviderReply::Response(vec![paris_result()]),
    ];
    let first = run_with_replies(make_queries(), 4, &replies, FailurePolicy::Lenient).unwrap();
    let second = run_with_replies(make_queries(), 4, &replies, FailurePolicy::Lenient).unwrap();
    assert_eq!(first, second);
}

#[test]
fn strict_one_failure_no_output() {
    let queries = vec![
        record("A", "1 Main St", "Paris", "75001"),
        record("B", "2 High St", "Lyon", "69001"),
    ];
    let replies = vec![
        ProviderReply::Response(vec![paris_result()]),
        ProviderReply::Response(vec![]),
    ];
    let out = run_with_replies(queries, 10, &replies, FailurePolicy::Strict);
    assert_eq!(out, Err(GeocodingError::NoResult));
}

#[test]
fn lenient_keeps_exactly_the_successes() {
    let queries = vec![
        record("A", "1 Main St", "Paris", "75001"),
        record("B", "2 High St", "Lyon", "69001"),
        record("C", "3 Low Rd", "Nice", "06000"),
    ];
    let replies = vec![
        ProviderReply::Response(vec![paris_result()]),
        ProviderReply::Failure("down".to_string()),
        ProviderReply::Response(vec![paris_result()]),
    ];
    let out = run_with_replies(queries, 10, &replies, FailurePolicy::Lenient).unwrap();
    assert_eq!(out.len(), 2);
    assert_eq!(out[0].name.as_deref(), Some("A"));
    assert_eq!(out[1].name.as_deref(), Some("C"));
    for a in &out {
        assert!(a.lat.is_some());
        assert!(a.lng.is_some());
    }
}

#[test]
fn provider_error_surfaced_verbatim() {
    let queries = vec![record("A", "1 Main St", "Paris", "75001")];
    let replies = vec![ProviderReply::Failure("quota exceeded".to_string())];
    let out = run_with_replies(queries, 10, &replies, FailurePolicy::Strict);
    assert_eq!(
        out,
        Err(GeocodingError::ProviderError("quota exceeded".to_string()))
    );
}

#[test]
fn last_component_wins() {
    let result = GeocodingResult {
        address_components: vec![
            component("Paris", &[PlaceKind::Locality]),
            component("Lyon", &[PlaceKind::Locality]),
        ],
        lat: "45.76".to_string(),
        lng: "4.83".to_string(),
    };
    let a = Address::parse_geocoding_result(&result, Some("X".to_string()));
    assert_eq!(a.locality.as_deref(), Some("Lyon"));
}

#[test]
fn component_with_several_tags_fills_each() {
    let result = GeocodingResult {
        address_components: vec![component(
            "Dual",
            &[PlaceKind::Locality, PlaceKind::Country],
        )],
        lat: "0.0".to_string(),
        lng: "0.0".to_string(),
    };
    let a = Address::parse_geocoding_result(&result, None);
    assert_eq!(a.locality.as_deref(), Some("Dual"));
    assert_eq!(a.country.as_deref(), Some("Dual"));
    assert_eq!(a.name, None);
}

#[test]
fn route_alone_gives_full_address() {
    let result = GeocodingResult {
        address_components: vec![component("Main St", &[PlaceKind::Route])],
        lat: "1.0".to_string(),
        lng: "2.0".to_string(),
    };
    let a = Address::parse_geocoding_result(&result, None);
    assert_eq!(a.full_address.as_deref(), Some("Main St"));
    assert_eq!(a.street_number, None);
}

#[test]
fn street_number_alone_gives_no_full_address() {
    let result = GeocodingResult {
        address_components: vec![component("12", &[PlaceKind::StreetNumber])],
        lat: "1.0".to_string(),
        lng: "2.0".to_string(),
    };
    let a = Address::parse_geocoding_result(&result, None);
    assert_eq!(a.full_address, None);
    assert_eq!(a.street_number.as_deref(), Some("12"));
}

#[test]
fn unrecognized_tags_are_ignored() {
    let result = GeocodingResult {
        address_components: vec![component("Ignored", &[PlaceKind::Other])],
        lat: "1.0".to_string(),
        lng: "2.0".to_string(),
    };
    let a = Address::parse_geocoding_result(&result, None);
    assert_eq!(a.locality, None);
    assert_eq!(a.route, None);
    assert_eq!(a.country, None);
    assert_eq!(a.lat.as_deref(), Some("1.0"));
    assert_eq!(a.lng.as_deref(), Some("2.0"));
}

#[test]
fn query_string_concatenates_fields() {
    let a = record("A", "1 Main St", "Paris", "75001");
    assert_eq!(
        a.get_address_with_site_name().as_deref(),
        Some("A, 1 Main St, Paris, 75001")
    );
}

#[test]
fn query_string_needs_every_field() {
    let mut a = record("A", "1 Main St", "Paris", "75001");
    a.postal_code = None;
    assert_eq!(a.get_address_with_site_name(), None);
}

#[test]
fn formatted_address_renders_all_fields() {
    let mut a = record("A", "1 Main St", "Paris", "75001");
    a.administrative_area_level1 = Some("IdF".to_string());
    a.administrative_area_level2 = Some("75".to_string());
    a.lat = Some("48.86".to_string());
    a.lng = Some("2.35".to_string());
    assert_eq!(
        a.get_formatted_address().as_deref(),
        Some("A, 1 Main St, Paris, 75001, IdF, 75, 48.86, 2.35")
    );
}

#[test]
fn formatted_address_needs_coordinates() {
    let a = record("A", "1 Main St", "Paris", "75001");
    assert_eq!(a.get_formatted_address(), None);
}

#[test]
fn site_name_carried_through() {
    let a = record("Site", "1 Main St", "Paris", "75001");
    assert_eq!(a.get_site_name().as_deref(), Some("Site"));
}

#[test]
fn missing_api_key_is_fatal() {
    assert_eq!(check_api_key(""), Err(GeocodingError::ConfigurationError));
    assert!(check_api_key("some-key").is_ok());
}

#[test]
fn strict_policy_returns_first_error() {
    let errors = vec![
        (0usize, GeocodingError::NoResult),
        (1usize, GeocodingError::InvalidQuery),
    ];
    let out = apply_policy(FailurePolicy::Strict, vec![], &errors);
    assert_eq!(out, Err(GeocodingError::NoResult));
}

#[test]
fn lenient_policy_ignores_errors() {
    let errors = vec![(0usize, GeocodingError::NoResult)];
    let results = vec![record("A", "1 Main St", "Paris", "75001")];
    let out = apply_policy(FailurePolicy::Lenient, results, &errors).unwrap();
    assert_eq!(out.len(), 1);
    assert_eq!(out[0].name.as_deref(), Some("A"));
}

#[test]
fn first_candidate_is_used() {
    let other = GeocodingResult {
        address_components: vec![component("Lyon", &[PlaceKind::Locality])],
        lat: "45.76".to_string(),
        lng: "4.83".to_string(),
    };
    let queries = vec![record("A", "1 Main St", "Paris", "75001")];
    let replies = vec![ProviderReply::Response(vec![paris_result(), other])];
    let out = run_with_replies(queries, 10, &replies, FailurePolicy::Strict).unwrap();
    assert_eq!(out[0].locality.as_deref(), Some("Paris"));
}
