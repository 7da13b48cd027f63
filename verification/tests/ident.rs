use yukumo::error::ApiError;
use yukumo::to_dashed_id;

#[test]
fn test_to_dashed_id() {
    const ID: &str = "2131b10cebf64938a1277089ff02dbe4";
    assert_eq!(
        to_dashed_id(ID).ok(),
        Some("2131b10c-ebf6-4938-a127-7089ff02dbe4".to_string())
    );
}

#[test]
fn lib_test_to_dashed_id() {
    const ID: &str = "2131b10cebf64938a1277089ff02dbe4";
    assert_eq!(
        to_dashed_id(ID).ok(),
        Some("2131b10c-ebf6-4938-a127-7089ff02dbe4".to_string())
    );
}

#[test]
fn notion_test_to_dashed_id() {
    const ID: &str = "2131b10cebf64938a1277089ff02dbe4";
    assert_eq!(
        to_dashed_id(ID).ok(),
        Some("2131b10c-ebf6-4938-a127-7089ff02dbe4".to_string())
    );
}

#[test]
fn already_dashed_input_is_accepted() {
    assert_eq!(
        to_dashed_id("2131b10c-ebf6-4938-a127-7089ff02dbe4").ok(),
        Some("2131b10c-ebf6-4938-a127-7089ff02dbe4".to_string())
    );
}

#[test]
fn normalization_is_idempotent() {
    for input in [
        "2131b10cebf64938a1277089ff02dbe4",
        "2131b10c-ebf6-4938-a127-7089ff02dbe4",
        "2-1-3-1-b10cebf64938a1277089ff02dbe-4",
        "00000000000000000000000000000000",
    ] {
        let once = to_dashed_id(input).unwrap();
        let twice = to_dashed_id(&once).unwrap();
        assert_eq!(once, twice);
    }
}

#[test]
fn output_has_five_groups() {
    let out = to_dashed_id("abcdefabcdefabcdefabcdefabcdefab").unwrap();
    assert_eq!(out.len(), 36);
    let groups: Vec<&str> = out.split('-').collect();
    assert_eq!(groups.len(), 5);
    assert_eq!(groups[0].len(), 8);
    assert_eq!(groups[1].len(), 4);
    assert_eq!(groups[2].len(), 4);
    assert_eq!(groups[3].len(), 4);
    assert_eq!(groups[4].len(), 12);
}

#[test]
fn wrong_lengths_are_invalid_identifiers() {
    for input in [
        "",
        "-",
        "2131b10cebf64938a1277089ff02dbe",   // 31 characters
        "2131b10cebf64938a1277089ff02dbe44", // 33 characters
        "2131b10c-ebf6-4938-a127-7089ff02dbe",
        "2131b10c-ebf6-4938-a127-7089ff02dbe44",
    ] {
        assert_eq!(to_dashed_id(input), Err(ApiError::InvalidIdentifier));
    }
}
