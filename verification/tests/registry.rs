use fsops::registry::{find_component_by_name_or_uri, search_components, RegistryComponent};

#[test]
fn test_search_components_no_query() {
    let components = vec![
        RegistryComponent {
            name: "Component A".to_string(),
            description: "Description A".to_string(),
            uri: "oci://example.com/a".to_string(),
        },
        RegistryComponent {
            name: "Component B".to_string(),
            description: "Description B".to_string(),
            uri: "oci://example.com/b".to_string(),
        },
    ];

    let results = search_components(&components, None);
    assert_eq!(results.len(), 2);
}

#[test]
fn test_search_components_with_query() {
    let components = vec![
        RegistryComponent {
            name: "Weather Server".to_string(),
            description: "A weather component".to_string(),
            uri: "oci://example.com/weather".to_string(),
        },
        RegistryComponent {
            name: "Time Server".to_string(),
            description: "A time component".to_string(),
            uri: "oci://example.com/time".to_string(),
        },
    ];

    let results = search_components(&components, Some("weather"));
    assert_eq!(results.len(), 1);
    assert_eq!(results[0].name, "Weather Server");
}

#[test]
fn test_search_components_case_insensitive() {
    let components = vec![RegistryComponent {
        name: "Weather Server".to_string(),
        description: "A weather component".to_string(),
        uri: "oci://example.com/weather".to_string(),
    }];

    let results = search_components(&components, Some("WEATHER"));
    assert_eq!(results.len(), 1);
}

#[test]
fn test_find_component_by_name() {
    let components = vec![RegistryComponent {
        name: "Weather Server".to_string(),
        description: "A weather component".to_string(),
        uri: "oci://example.com/weather".to_string(),
    }];

    let result = find_component_by_name_or_uri(&components, "Weather Server");
    assert!(result.is_some());
    assert_eq!(result.unwrap().name, "Weather Server");
}

#[test]
fn test_find_component_by_uri() {
    let components = vec![RegistryComponent {
        name: "Weather Server".to_string(),
        description: "A weather component".to_string(),
        uri: "oci://example.com/weather".to_string(),
    }];

    let result = find_component_by_name_or_uri(&components, "oci://example.com/weather");
    assert!(result.is_some());
    assert_eq!(result.unwrap().name, "Weather Server");
}

#[test]
fn test_search_components_multi_term() {
    let components = vec![
        RegistryComponent {
            name: "Weather Server".to_string(),
            description: "JavaScript weather component".to_string(),
            uri: "oci://example.com/weather-js".to_string(),
        },
        RegistryComponent {
            name: "Time Server".to_string(),
            description: "Rust time component".to_string(),
            uri: "oci://example.com/time-rs".to_string(),
        },
    ];

    // Multi-term search should match any term
    let results = search_components(&components, Some("weather rust"));
    assert_eq!(results.len(), 2); // Both match (weather matches first, rust matches second)
}

#[test]
fn test_search_components_matches_uri() {
    let components = vec![RegistryComponent {
        name: "Component".to_string(),
        description: "A test component".to_string(),
        uri: "oci://ghcr.io/microsoft/weather".to_string(),
    }];

    // Should match URI as well
    let results = search_components(&components, Some("microsoft"));
    assert_eq!(results.len(), 1);
}

#[test]
fn test_search_components_empty_query() {
    let components = vec![RegistryComponent {
        name: "Component".to_string(),
        description: "Description".to_string(),
        uri: "oci://example.com/comp".to_string(),
    }];

    // Empty string query should return all components
    let results = search_components(&components, Some("   "));
    assert_eq!(results.len(), 1);
}

#[test]
fn test_find_component_name_case_insensitive_uri_exact() {
    let components = vec![RegistryComponent {
        name: "Weather Server".to_string(),
        description: "A weather component".to_string(),
        uri: "oci://example.com/weather".to_string(),
    }];

    let by_name = find_component_by_name_or_uri(&components, "weather server");
    assert!(by_name.is_some());
    assert_eq!(by_name.unwrap().name, "Weather Server");

    // The URI match is exact and case-sensitive, so a re-cased URI misses.
    let by_uri = find_component_by_name_or_uri(&components, "OCI://example.com/weather");
    assert!(by_uri.is_none());

    let missing = find_component_by_name_or_uri(&components, "oci://example.com/other");
    assert!(missing.is_none());
}

#[test]
fn test_search_components_no_match_returns_empty() {
    let components = vec![RegistryComponent {
        name: "Weather Server".to_string(),
        description: "A weather component".to_string(),
        uri: "oci://example.com/weather".to_string(),
    }];

    let results = search_components(&components, Some("database"));
    assert_eq!(results.len(), 0);
}

#[test]
fn test_find_component_returns_first_match() {
    let components = vec![
        RegistryComponent {
            name: "Weather Server".to_string(),
            description: "first".to_string(),
            uri: "oci://example.com/one".to_string(),
        },
        RegistryComponent {
            name: "WEATHER SERVER".to_string(),
            description: "second".to_string(),
            uri: "oci://example.com/two".to_string(),
        },
    ];

    let result = find_component_by_name_or_uri(&components, "weather server").unwrap();
    assert_eq!(result.description, "first");
    let by_uri = find_component_by_name_or_uri(&components, "oci://example.com/two").unwrap();
    assert_eq!(by_uri.description, "second");
}
