use bit_buy_icp_backend::{Property, PropertyType};

fn sample() -> Property {
    Property {
        id: "sloop-3".to_string(),
        property_type: PropertyType::Other("boat".to_string()),
        image_hash: "00ff".to_string(),
        description: "sails well".to_string(),
        owner: "alice".to_string(),
    }
}

#[test]
fn fixed_categories_display_their_names() {
    assert_eq!(PropertyType::RealEstate.display(), "RealEstate");
    assert_eq!(PropertyType::Car.display(), "Car");
    assert_eq!(PropertyType::Art.display(), "Art");
}

#[test]
fn other_category_displays_its_label_quoted() {
    assert_eq!(PropertyType::Other("boat".to_string()).display(), "Other(\"boat\")");
    assert_eq!(PropertyType::Other(String::new()).display(), "Other(\"\")");
}

#[test]
fn other_category_escapes_its_label() {
    assert_eq!(
        PropertyType::Other("say \"hi\"".to_string()).display(),
        "Other(\"say \\\"hi\\\"\")"
    );
    assert_eq!(PropertyType::Other("a\tb\n".to_string()).display(), "Other(\"a\\tb\\n\")");
    assert_eq!(
        PropertyType::Other("back\\slash".to_string()).display(),
        "Other(\"back\\\\slash\")"
    );
}

#[test]
fn display_is_the_debug_rendering() {
    let categories = [
        PropertyType::RealEstate,
        PropertyType::Car,
        PropertyType::Art,
        PropertyType::Other("boat".to_string()),
        PropertyType::Other("it's \"odd\" \u{7f}\u{e9}".to_string()),
    ];
    for category in categories {
        assert_eq!(category.display(), format!("{:?}", category));
    }
}

#[test]
fn category_is_told_apart_by_tag_and_label() {
    assert_eq!(PropertyType::Car, PropertyType::Car);
    assert_ne!(PropertyType::Car, PropertyType::Art);
    assert_eq!(PropertyType::Other("x".to_string()), PropertyType::Other("x".to_string()));
    assert_ne!(PropertyType::Other("x".to_string()), PropertyType::Other("y".to_string()));
    assert_ne!(PropertyType::Other("Car".to_string()), PropertyType::Car);
}

#[test]
fn clone_of_a_category_is_equal() {
    let label = PropertyType::Other("boat".to_string());
    assert_eq!(label.clone(), label);
    assert_eq!(PropertyType::RealEstate.clone(), PropertyType::RealEstate);
    assert_eq!(PropertyType::Car.clone(), PropertyType::Car);
    assert_eq!(PropertyType::Art.clone(), PropertyType::Art);
}

#[test]
fn clone_of_a_record_is_equal_and_separate() {
    let record = sample();
    let mut copy = record.clone();
    assert_eq!(copy, record);
    copy.owner.push_str(" and bob");
    assert_eq!(record.owner, "alice");
    assert_ne!(copy, record);
}

#[test]
fn summary_is_id_category_and_digest() {
    let row = sample().summary();
    assert_eq!(row, ("sloop-3".to_string(), "Other(\"boat\")".to_string(), "00ff".to_string()));
}
