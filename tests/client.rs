use typesense::{ConfigError, Configuration, FieldBuilder, TypesenseClient};

#[test]
fn initialize_typesense_client() {
    let configuration = Configuration::new("xyz", vec!["http://localhost:123"], 0)
        .unwrap()
        .nearest_node("http://nearestnode:123", 0)
        .unwrap()
        .health_check_interval(60_000)
        .num_retries(5)
        .build();
    let client = TypesenseClient::new(configuration);

    assert_eq!(
        client.configuration.client.nearest_node.unwrap().url.as_str(),
        "http://nearestnode:123/"
    );
    assert_eq!(client.configuration.client.health_check_interval, 60_000);
    assert_eq!(client.configuration.client.num_retries, 5);
}

#[test]
fn initialize_typesense_client_panic_when_no_node_specified() {
    let result = Configuration::new("xyz", vec![], 0);
    assert!(matches!(result, Err(ConfigError::EmptyNodes)));
}

#[test]
fn configuration_defaults() {
    let c = Configuration::new("key", vec!["http://a:1", "http://b:2"], 5).unwrap();
    assert_eq!(c.base_path, "http://a:1");
    let key = c.api_key.as_ref().unwrap();
    assert_eq!(key.key, "key");
    assert!(key.prefix.is_none());
    assert_eq!(c.user_agent.as_deref(), Some("OpenAPI-Generator/27.0/rust"));
    assert!(c.basic_auth.is_none());
    assert!(c.oauth_access_token.is_none());
    assert!(c.bearer_access_token.is_none());
    assert_eq!(c.client.nodes.len(), 2);
    assert_eq!(c.client.nodes[1].url, "http://b:2/");
}

#[test]
fn build_resets_extras() {
    let mut c = Configuration::new("key", vec!["http://a:1"], 0).unwrap();
    c.user_agent = None;
    c.bearer_access_token = Some("t".to_owned());
    c.basic_auth = Some(("u".to_owned(), None));
    let c = c.num_retries(2).retry_interval(7).build();
    assert_eq!(c.user_agent.as_deref(), Some("OpenAPI-Generator/27.0/rust"));
    assert!(c.bearer_access_token.is_none());
    assert!(c.basic_auth.is_none());
    assert_eq!(c.client.num_retries, 2);
    assert_eq!(c.client.retry_interval, 7);
}

#[test]
fn configuration_rejects_bad_urls() {
    assert!(matches!(
        Configuration::new("key", vec!["nope"], 0),
        Err(ConfigError::InvalidUrl(0))
    ));
    let c = Configuration::new("key", vec!["http://a:1"], 0).unwrap();
    assert!(matches!(c.nearest_node("relative/path", 0), Err(ConfigError::InvalidNearestNode)));
}

#[test]
fn field_builder_sets_attributes() {
    let field = FieldBuilder::new("country", "string".to_owned())
        .facet(Some(true))
        .optional(Some(false))
        .index(Some(true))
        .locale(Some("en".to_owned()))
        .sort(Some(true))
        .infix(None)
        .num_dim(Some(384))
        .drop(Some(false))
        .build();
    assert_eq!(field.name, "country");
    assert_eq!(field.field_type, "string");
    assert_eq!(field.facet, Some(true));
    assert_eq!(field.optional, Some(false));
    assert_eq!(field.index, Some(true));
    assert_eq!(field.locale.as_deref(), Some("en"));
    assert_eq!(field.sort, Some(true));
    assert_eq!(field.infix, None);
    assert_eq!(field.num_dim, Some(384));
    assert_eq!(field.drop, Some(false));
}

#[test]
fn field_builder_starts_empty() {
    let field = FieldBuilder::new("num_employees", "int32".to_owned()).build();
    assert_eq!(field.name, "num_employees");
    assert_eq!(field.field_type, "int32");
    assert!(field.optional.is_none() && field.facet.is_none() && field.index.is_none());
    assert!(field.locale.is_none() && field.sort.is_none() && field.infix.is_none());
    assert!(field.num_dim.is_none() && field.drop.is_none());
}
