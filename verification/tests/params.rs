use cloudflare::params::OrderDirection;

#[test]
fn order_direction_wire_names() {
    assert_eq!(OrderDirection::Ascending.as_str(), "asc");
    assert_eq!(OrderDirection::Descending.as_str(), "desc");
}
