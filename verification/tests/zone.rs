use gcp_resource_detector::zone::parse_zone;

#[test]
fn test_parse_zone_valid_path() {
    let z = parse_zone("projects/233510669999/zones/us-east4-b");
    assert_eq!(z.region, "us-east4");
    assert_eq!(z.zone, "us-east4-b");
}

#[test]
fn test_parse_zone_malformed() {
    assert_eq!(parse_zone("").region, "");
    assert_eq!(parse_zone("").zone, "");
    let z = parse_zone("us-east4-b");
    assert_eq!(z.region, "");
    assert_eq!(z.zone, "");
    let z = parse_zone("projects/abc/zones/us-east4-b");
    assert_eq!(z.region, "");
    assert_eq!(z.zone, "");
    let z = parse_zone("projects/123/zones/zone");
    assert_eq!(z.region, "");
    assert_eq!(z.zone, "");
    let z = parse_zone("projects/123/zones/us-east4");
    assert_eq!(z.region, "");
    assert_eq!(z.zone, "");
}

#[test]
fn test_parse_zone_extra_tokens() {
    // only the first three word tokens make up the zone
    let z = parse_zone("projects/1/zones/a-b-c-d");
    assert_eq!(z.region, "a-b");
    assert_eq!(z.zone, "a-b-c");
}

#[test]
fn test_parse_zone_trailing_text() {
    let z = parse_zone("projects/42/zones/eu-west1-c/rest");
    assert_eq!(z.region, "eu-west1");
    assert_eq!(z.zone, "eu-west1-c");
}
