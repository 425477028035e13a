use repository::OrganizationStatus;

#[test]
fn status_values_match_the_check_constraint() {
    assert_eq!(OrganizationStatus::PendingOwner.as_str(), "pending_owner");
    assert_eq!(OrganizationStatus::Active.as_str(), "active");
}
