use svd_compress::compress::SvdApproxError;

#[test]
fn invalid_rank_message_names_the_bound_and_the_request() {
    let e = SvdApproxError::InvalidRank(4, 5);
    assert_eq!(e.message(), "`rank` must be between 0 and 4, got 5.");
}

#[test]
fn invalid_rank_message_writes_zero() {
    let e = SvdApproxError::InvalidRank(0, 0);
    assert_eq!(e.message(), "`rank` must be between 0 and 0, got 0.");
}

#[test]
fn invalid_rank_message_writes_long_numbers() {
    let e = SvdApproxError::InvalidRank(1080, 1920);
    assert_eq!(e.message(), "`rank` must be between 0 and 1080, got 1920.");
    let e = SvdApproxError::InvalidRank(10, usize::MAX);
    assert_eq!(
        e.message(),
        format!("`rank` must be between 0 and 10, got {}.", usize::MAX)
    );
}

#[test]
fn compute_req_failed_message() {
    assert_eq!(
        SvdApproxError::ComputeReqFailed.message(),
        "Failed to compute buffer requirements for SVD."
    );
}
