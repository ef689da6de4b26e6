use relay_core::faults::{recovery, Fault, Recovery};

#[test]
fn bind_failure_ends_the_process() {
    assert_eq!(recovery(Fault::Bind), Recovery::Abort);
}

#[test]
fn transient_failures_are_logged_and_skipped() {
    assert_eq!(recovery(Fault::Accept), Recovery::LogAndContinue);
    assert_eq!(recovery(Fault::Read), Recovery::LogAndContinue);
    assert_eq!(recovery(Fault::Write), Recovery::LogAndContinue);
}

#[test]
fn subscriber_lag_is_dropped_in_silence() {
    assert_eq!(recovery(Fault::SubscriberLag), Recovery::SilentDrop);
}

#[test]
fn serialization_failure_is_dropped_and_logged() {
    assert_eq!(recovery(Fault::Serialization), Recovery::LogAndContinue);
}
