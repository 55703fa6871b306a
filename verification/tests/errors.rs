use std::sync::Arc;

use zk_epdcalc::error::{AppError, ProvingError};
use zk_epdcalc::handlers::ResponseBody;
use zk_epdcalc::requests::RequestRejection;

#[test]
fn every_failure_has_its_text() {
    assert_eq!(AppError::MissingResult.message(), "No Result available");
    assert_eq!(AppError::TaskNotCompleted.message(), "Task is not complete");
    assert_eq!(AppError::ProofDecodingFailed.message(), "Unable to decode Zero Knowledge Proof");
    assert_eq!(
        AppError::NonMatchingEPDInfo.message(),
        "EPD information does not match proof commitments!"
    );
    assert_eq!(AppError::InvalidProof.message(), "Proof could not be verified!");
    assert_eq!(
        AppError::InvalidRequestData("whatever".to_string()).message(),
        "Invalid Request data!"
    );
}

#[test]
fn unknown_task_is_shown_as_a_uuid() {
    let id = 0xa1a2a3a4_b1b2_c1c2_d1d2_d3d4d5d6d7d8u128;
    assert_eq!(
        AppError::UnknownTask(id).message(),
        "Unknown Task: a1a2a3a4-b1b2-c1c2-d1d2-d3d4d5d6d7d8"
    );
    assert_eq!(
        AppError::UnknownTask(1).message(),
        "Unknown Task: 00000000-0000-0000-0000-000000000001"
    );
}

#[test]
fn failed_job_is_shown_as_its_cause() {
    let engine = ProvingError::ProvingFailed("guest panicked".to_string());
    assert_eq!(engine.message(), "Proof generation failed: guest panicked");
    assert_eq!(
        AppError::from_proving(engine).message(),
        "Proof generation failed: guest panicked"
    );
    assert_eq!(
        ProvingError::JournalDecodingFailed.message(),
        "Proof output could not be deserialized."
    );
    assert_eq!(ProvingError::SerializationFailed.message(), "Proof could not be serialized.");
    assert_eq!(
        AppError::from(ProvingError::SerializationFailed),
        AppError::ProofGenerationFailed(Arc::new(ProvingError::SerializationFailed))
    );
}

#[test]
fn every_failure_has_its_status() {
    assert_eq!(AppError::MissingResult.status_code(), 500);
    assert_eq!(AppError::from_proving(ProvingError::JournalDecodingFailed).status_code(), 500);
    assert_eq!(AppError::UnknownTask(7).status_code(), 404);
    assert_eq!(AppError::TaskNotCompleted.status_code(), 400);
    assert_eq!(AppError::ProofDecodingFailed.status_code(), 200);
    assert_eq!(AppError::NonMatchingEPDInfo.status_code(), 200);
    assert_eq!(AppError::InvalidProof.status_code(), 200);
    assert_eq!(AppError::InvalidRequestData(String::new()).status_code(), 400);
}

#[test]
fn only_refused_claims_are_answers() {
    assert!(AppError::NonMatchingEPDInfo.is_verification_outcome());
    assert!(AppError::InvalidProof.is_verification_outcome());
    assert!(AppError::ProofDecodingFailed.is_verification_outcome());
    assert!(!AppError::MissingResult.is_verification_outcome());
    assert!(!AppError::TaskNotCompleted.is_verification_outcome());
    assert!(!AppError::UnknownTask(3).is_verification_outcome());
    assert!(!AppError::InvalidRequestData(String::new()).is_verification_outcome());
    assert!(!AppError::from_proving(ProvingError::SerializationFailed).is_verification_outcome());
}

#[test]
fn refused_claims_are_answered_as_verifications() {
    for (failure, reason) in [
        (AppError::ProofDecodingFailed, "Unable to decode Zero Knowledge Proof"),
        (AppError::NonMatchingEPDInfo, "EPD information does not match proof commitments!"),
        (AppError::InvalidProof, "Proof could not be verified!"),
    ] {
        let answer = failure.into_response();
        assert_eq!(answer.status, 200);
        match answer.body {
            ResponseBody::Verification(told) => {
                assert!(!told.verified);
                assert_eq!(told.error, Some(reason.to_string()));
            }
            ResponseBody::Text(_) => panic!("a refused claim is answered as a verification"),
        }
    }
}

#[test]
fn failures_are_answered_as_text() {
    let answer = AppError::UnknownTask(1).into_response();
    assert_eq!(answer.status, 404);
    match answer.body {
        ResponseBody::Text(text) => {
            assert_eq!(text, "Unknown Task: 00000000-0000-0000-0000-000000000001")
        }
        ResponseBody::Verification(_) => panic!("an unknown task is no verification"),
    }
    let answer = AppError::TaskNotCompleted.into_response();
    assert_eq!(answer.status, 400);
    assert!(matches!(answer.body, ResponseBody::Text(text) if text == "Task is not complete"));
    let answer =
        AppError::from_proving(ProvingError::ProvingFailed("boom".to_string())).into_response();
    assert_eq!(answer.status, 500);
    assert!(
        matches!(answer.body, ResponseBody::Text(text) if text == "Proof generation failed: boom")
    );
}

#[test]
fn copies_of_failures_are_equal() {
    let failures = vec![
        AppError::MissingResult,
        AppError::from_proving(ProvingError::ProvingFailed("x".to_string())),
        AppError::UnknownTask(99),
        AppError::TaskNotCompleted,
        AppError::ProofDecodingFailed,
        AppError::NonMatchingEPDInfo,
        AppError::InvalidProof,
        AppError::InvalidRequestData("y".to_string()),
    ];
    for (i, failure) in failures.iter().enumerate() {
        assert_eq!(failure.clone(), *failure);
        for (j, other) in failures.iter().enumerate() {
            assert_eq!(failure == other, i == j);
        }
    }
    assert_ne!(
        AppError::InvalidRequestData("y".to_string()),
        AppError::InvalidRequestData("z".to_string())
    );
    assert_ne!(AppError::UnknownTask(1), AppError::UnknownTask(2));
    assert_ne!(
        ProvingError::ProvingFailed("a".to_string()),
        ProvingError::ProvingFailed("b".to_string())
    );
}

#[test]
fn rejections_have_their_text_and_status() {
    let unknown = RequestRejection::UnknownZkType("Bogus".to_string());
    assert_eq!(unknown.message(), "Unknown value for zktype: Bogus");
    assert_eq!(unknown.status_code(), Some(400));
    assert_eq!(RequestRejection::QueryRejection.message(), "Query Error");
    assert_eq!(RequestRejection::JsonRejection.message(), "Json Parse Error");
    assert_eq!(RequestRejection::BytesRejection.message(), "Bytes buffering Error");
    assert_eq!(RequestRejection::QueryRejection.status_code(), None);
    assert_eq!(RequestRejection::JsonRejection.status_code(), None);
    assert_eq!(RequestRejection::BytesRejection.status_code(), None);
}
