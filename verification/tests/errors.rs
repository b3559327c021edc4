use linkhop::branch::BranchError;
use linkhop::resolve::ResolveError;

#[test]
fn each_error_has_its_message() {
    assert_eq!(
        BranchError::TopLink(ResolveError::Base).message(),
        "Failed to parse base URL"
    );
    assert_eq!(BranchError::TopLink(ResolveError::Link).message(), "Failed to join URL");
    assert_eq!(BranchError::Selector.message(), "Failed to create selector");
    assert_eq!(
        BranchError::FirstLink(ResolveError::Base).message(),
        "Failed to parse full link"
    );
    assert_eq!(BranchError::FirstLink(ResolveError::Link).message(), "Failed to join URL");
}
