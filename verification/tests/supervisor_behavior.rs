use worker_sandbox::outcome::WorkerOutcome;
use worker_sandbox::supervisor::{
    classify, on_boot_failure, on_run_result, on_termination_event, ErrorClass, SupervisorStep,
};

#[test]
fn successful_run_settles_completed_without_channel() {
    let step = on_run_result(Ok(()));
    assert!(matches!(
        step,
        SupervisorStep::Settled(WorkerOutcome::EventLoopCompleted)
    ));
}

#[test]
fn plain_failure_is_uncaught_exception_with_exact_message() {
    let step = on_run_result(Err("TypeError: x is not a function".to_string()));
    match step {
        SupervisorStep::Settled(WorkerOutcome::UncaughtException { message }) => {
            assert_eq!(message, "TypeError: x is not a function");
        }
        _ => panic!("expected a settled uncaught exception"),
    }
}

#[test]
fn termination_suffixes_defer_to_the_channel() {
    let step = on_run_result(Err("Uncaught Error: execution terminated".to_string()));
    assert!(matches!(step, SupervisorStep::AwaitTermination));
    let step = on_run_result(Err("worker stopped: wall clock duration reached".to_string()));
    assert!(matches!(step, SupervisorStep::AwaitTermination));
}

#[test]
fn classifier_matches_suffix_case_sensitively_at_the_end() {
    assert_eq!(
        classify("execution terminated"),
        ErrorClass::ExternalTerminationPattern
    );
    assert_eq!(
        classify("wall clock duration reached"),
        ErrorClass::ExternalTerminationPattern
    );
    // the suffix must stand at the very end
    assert_eq!(
        classify("execution terminated."),
        ErrorClass::ApplicationException
    );
    // matching is case-sensitive
    assert_eq!(
        classify("Execution Terminated"),
        ErrorClass::ApplicationException
    );
    assert_eq!(classify(""), ErrorClass::ApplicationException);
    assert_eq!(classify("wall clock"), ErrorClass::ApplicationException);
}

#[test]
fn termination_event_is_returned_verbatim() {
    let marker = WorkerOutcome::ExternalTermination {
        reason: "cpu time limit of 50ms reached".to_string(),
    };
    let outcome = on_termination_event(Some(marker));
    match outcome {
        WorkerOutcome::ExternalTermination { reason } => {
            assert_eq!(reason, "cpu time limit of 50ms reached");
        }
        _ => panic!("expected the seeded outcome back"),
    }
}

#[test]
fn dropped_sender_becomes_typed_internal_outcome() {
    let outcome = on_termination_event(None);
    assert!(matches!(outcome, WorkerOutcome::InternalChannelClosed));
}

#[test]
fn boot_failure_carries_the_error_text() {
    let outcome = on_boot_failure("isolate creation failed".to_string());
    match outcome {
        WorkerOutcome::BootFailure { message } => {
            assert_eq!(message, "isolate creation failed");
        }
        _ => panic!("expected a boot failure"),
    }
}

#[test]
fn seeded_channel_drives_a_real_termination_race() {
    let rt = tokio::runtime::Builder::new_current_thread()
        .build()
        .unwrap();
    rt.block_on(async {
        let (tx, rx) = tokio::sync::oneshot::channel::<WorkerOutcome>();
        tx.send(WorkerOutcome::ExternalTermination {
            reason: "wall clock cap".to_string(),
        })
        .unwrap();
        let step = on_run_result(Err("v8: execution terminated".to_string()));
        let outcome = match step {
            SupervisorStep::Settled(o) => o,
            SupervisorStep::AwaitTermination => on_termination_event(rx.await.ok()),
        };
        match outcome {
            WorkerOutcome::ExternalTermination { reason } => assert_eq!(reason, "wall clock cap"),
            _ => panic!("expected the enforcer's outcome"),
        }
    });
}

#[test]
fn dropped_sender_in_a_real_race_is_not_a_crash() {
    let rt = tokio::runtime::Builder::new_current_thread()
        .build()
        .unwrap();
    rt.block_on(async {
        let (tx, rx) = tokio::sync::oneshot::channel::<WorkerOutcome>();
        drop(tx);
        let step = on_run_result(Err("v8: execution terminated".to_string()));
        let outcome = match step {
            SupervisorStep::Settled(o) => o,
            SupervisorStep::AwaitTermination => on_termination_event(rx.await.ok()),
        };
        assert!(matches!(outcome, WorkerOutcome::InternalChannelClosed));
    });
}
